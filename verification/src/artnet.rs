//! Art-Net ingestion: decoding inbound packets and applying them to the
//! shared store.
//!
//! Only an Output command mutates the store, and only when its payload
//! carries at least 512 bytes of channel data; the first 512 bytes then
//! become the new universe. Every other command is ignored, and decode
//! failures or short payloads are rejected without touching the store.
//! The socket loop that feeds buffers in lives outside this crate.

use vstd::prelude::*;

use crate::dmx::{DmxState, Universe, UNIVERSE_SIZE};

verus! {

/// The fixed UDP port the Art-Net listener binds.
pub const ARTNET_PORT: u16 = 6454;

/// An inbound packet as far as the node cares: the channel payload of
/// an Output command, some other Art-Net command, or bytes that do not
/// decode as Art-Net at all.
pub enum InboundPacket {
    Output(Vec<u8>),
    Other,
    Malformed,
}

/// The mathematical shape of a decoded packet.
pub enum PacketView {
    Output(Seq<u8>),
    Other,
    Malformed,
}

impl View for InboundPacket {
    type V = PacketView;

    open spec fn view(&self) -> PacketView {
        match self {
            InboundPacket::Output(data) => PacketView::Output(data@),
            InboundPacket::Other => PacketView::Other,
            InboundPacket::Malformed => PacketView::Malformed,
        }
    }
}

/// What decoding a buffer as an Art-Net command yields. The wire format
/// is involved, but the outcome is a function of the bytes alone.
pub uninterp spec fn art_decode(b: Seq<u8>) -> PacketView;

/// Relies on `artnet_protocol::ArtCommand::from_buffer` to decode one
/// UDP datagram: the result depends on the buffer bytes alone, an
/// `Output` command carries its DMX payload in `data`, and every other
/// decoded command or decode error carries no payload the node uses.
#[verifier::external_body]
fn decode_packet(buf: &Vec<u8>) -> (r: InboundPacket)
    ensures
        r@ == art_decode(buf@),
{
    match artnet_protocol::ArtCommand::from_buffer(buf.as_slice()) {
        Ok(artnet_protocol::ArtCommand::Output(output)) => {
            InboundPacket::Output(output.data.as_ref().clone())
        },
        Ok(_) => InboundPacket::Other,
        Err(_) => InboundPacket::Malformed,
    }
}

/// What an inbound packet does to the node: a full universe update, a
/// silent no-op for a foreign command, or a rejection.
#[derive(Clone, Copy, Debug, PartialEq, Eq, Structural)]
pub enum IngestOutcome {
    Updated,
    Ignored,
    Rejected,
}

/// The ingestion rule: an Output command with at least 512 payload
/// bytes updates the universe, any other command is ignored, and a
/// short payload or undecodable buffer is rejected.
pub open spec fn outcome_of(p: PacketView) -> IngestOutcome {
    match p {
        PacketView::Output(data) => if data.len() >= UNIVERSE_SIZE {
            IngestOutcome::Updated
        } else {
            IngestOutcome::Rejected
        },
        PacketView::Other => IngestOutcome::Ignored,
        PacketView::Malformed => IngestOutcome::Rejected,
    }
}

/// The universe after an inbound packet: the first 512 payload bytes of
/// an accepted Output command, and the previous universe otherwise.
pub open spec fn universe_after(current: Seq<u8>, p: PacketView) -> Seq<u8> {
    match p {
        PacketView::Output(data) => if data.len() >= UNIVERSE_SIZE {
            data.subrange(0, UNIVERSE_SIZE as int)
        } else {
            current
        },
        _ => current,
    }
}

/// Applies one decoded packet to a universe value. A rejected or
/// ignored packet leaves the universe exactly as it was: there is no
/// partial update.
pub fn ingest_transition(current: Universe, packet: &InboundPacket) -> (r: (Universe, IngestOutcome))
    requires
        current.wf(),
    ensures
        r.0.wf(),
        r.1 == outcome_of(packet@),
        r.0@ == universe_after(current@, packet@),
{
    match packet {
        InboundPacket::Output(data) => {
            match Universe::from_bytes(data) {
                Some(u) => (u, IngestOutcome::Updated),
                None => (current, IngestOutcome::Rejected),
            }
        },
        InboundPacket::Other => (current, IngestOutcome::Ignored),
        InboundPacket::Malformed => (current, IngestOutcome::Rejected),
    }
}

/// Applies one decoded packet to the shared store under the write lock.
pub fn apply_packet(state: &DmxState, packet: &InboundPacket) -> (r: IngestOutcome)
    ensures
        r == outcome_of(packet@),
{
    let (current, handle) = state.lock.acquire_write();
    let (next, outcome) = ingest_transition(current, packet);
    handle.release_write(next);
    outcome
}

/// Receives one buffer: decodes it as an Art-Net command and applies it
/// to the shared store.
pub fn handle_datagram(state: &DmxState, buf: &Vec<u8>) -> (r: IngestOutcome)
    ensures
        r == outcome_of(art_decode(buf@)),
{
    let packet = decode_packet(buf);
    apply_packet(state, &packet)
}

} // verus!
