//! Core of a network-to-serial lighting control node.
//!
//! The node receives a 512-channel lighting universe over the Art-Net UDP
//! protocol, holds it in a shared store, continuously re-transmits it as
//! DMX512 serial frames, and streams live snapshots to connected viewers.
//! This crate holds the shared store, the ingestion rules, the transmit
//! planning and supervision rules, and the telemetry fan-out rules; the
//! sockets, threads and serial hardware live outside it.

use vstd::prelude::*;

pub mod artnet;
pub mod dmx;
pub mod fanout;
pub mod transmit;

verus! {

/// The error kinds of the node: an undecodable or short network packet,
/// a channel index outside the universe, and a socket or serial failure.
#[derive(Clone, Copy, Debug, PartialEq, Eq, Structural)]
pub enum DmxError {
    MalformedPacket,
    OutOfRangeChannel,
    TransportError,
}

} // verus!
