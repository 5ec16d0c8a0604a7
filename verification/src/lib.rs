//! An in-process network-transport core for a tick-driven simulation host.
//!
//! Application code enqueues outbound messages, each with a declared delivery
//! requirement, into a [`transport::TransportResource`]. Once per tick a send
//! task drains the queue — gated by the simulation clock — translates every
//! message into a backend packet and hands it to the active backend socket.
//! The reference backend, [`socket::InMemorySocketResource`], is a strict FIFO
//! held in memory. A receive task polls the backend and republishes each
//! inbound packet as an ordered event on a shared event channel.

pub mod bundle;
pub mod events;
pub mod laws;
pub mod message;
pub mod metrics;
pub mod payload;
pub mod requirements;
pub mod socket;
pub mod systems;
pub mod timing;
pub mod transport;
