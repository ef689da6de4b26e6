//! Session core of a real-time multi-client relay.
//!
//! The relay accepts client connections, keeps a shared registry of the
//! connected sessions and of the entities they control, and passes state
//! changes on to all participants over two transports: a reliable ordered
//! channel per client, and a periodic unreliable broadcast of the latest
//! authoritative state.
//!
//! This crate holds what the relay decides; it touches no socket and no
//! clock. Its parts, leaf to root:
//!
//! * [`types`]: entities, session records, packets and payloads.
//! * [`registry`]: the store of sessions and entities, with [`table`] for
//!   the maps its vectors stand for.
//! * [`router`]: the delivery table, and publishing to the broadcast
//!   channel that fans packets out.
//! * [`session`]: the state machine of one client session.
//! * [`broadcaster`]: deduplication and addressing of the state broadcast.
//! * [`pacing`]: the pause that keeps every loop to a minimum tick length.
//! * [`faults`]: what may fail, and the response to each failure.
//! * [`occupancy`]: laws on how the registry fills and empties as sessions
//!   come and go.
//!
//! Whoever drives the crate owns the sockets, the locks and the timers:
//! it feeds a [`session::Session`] the events of its client, carries out
//! the actions the session answers with, and sleeps for what
//! [`pacing::remaining_tick`] says is left of each tick.

pub mod broadcaster;
pub mod faults;
pub mod occupancy;
pub mod pacing;
pub mod registry;
pub mod router;
pub mod session;
pub mod table;
pub mod types;
