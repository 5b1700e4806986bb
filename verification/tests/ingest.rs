use artnet_protocol::{ArtCommand, Output, Poll};
use lunchbox_dmx::artnet::{handle_datagram, IngestOutcome};
use lunchbox_dmx::dmx::{DmxState, UNIVERSE_SIZE};

fn output_packet(data: Vec<u8>) -> Vec<u8> {
    ArtCommand::Output(Output { data: data.into(), ..Default::default() })
        .write_to_buffer()
        .unwrap()
}

#[test]
fn full_output_packet_updates_all_channels() {
    let state = DmxState::new();
    let data: Vec<u8> = (0..UNIVERSE_SIZE).map(|i| (255 - i % 256) as u8).collect();
    let buf = output_packet(data.clone());
    assert_eq!(handle_datagram(&state, &buf), IngestOutcome::Updated);
    assert_eq!(state.get().into_vec(), data);
}

#[test]
fn oversized_output_packet_takes_first_universe() {
    let state = DmxState::new();
    let data: Vec<u8> = vec![5; UNIVERSE_SIZE];
    let mut buf = output_packet(data.clone());
    // Trailing bytes of the datagram are decoded as extra payload.
    buf.extend_from_slice(&[200, 201, 202, 203, 204, 205, 206, 207]);
    assert_eq!(handle_datagram(&state, &buf), IngestOutcome::Updated);
    assert_eq!(state.get().into_vec(), data);
}

#[test]
fn short_output_packet_is_rejected_with_no_partial_update() {
    let state = DmxState::new();
    state.set_channel(3, 77).unwrap();
    let buf = output_packet(vec![255, 255]);
    assert_eq!(handle_datagram(&state, &buf), IngestOutcome::Rejected);
    let bytes = state.get().into_vec();
    assert_eq!(bytes[0], 0);
    assert_eq!(bytes[3], 77);
}

#[test]
fn non_output_command_causes_zero_mutations() {
    let state = DmxState::new();
    state.set_channel(10, 33).unwrap();
    let before = state.get().into_vec();
    let buf = ArtCommand::Poll(Poll::default()).write_to_buffer().unwrap();
    assert_eq!(handle_datagram(&state, &buf), IngestOutcome::Ignored);
    assert_eq!(state.get().into_vec(), before);
}

#[test]
fn undecodable_buffer_is_rejected_without_mutation() {
    let state = DmxState::new();
    assert_eq!(handle_datagram(&state, &vec![1, 2, 3]), IngestOutcome::Rejected);
    let mut not_artnet = vec![0u8; 64];
    not_artnet[0] = b'X';
    assert_eq!(handle_datagram(&state, &not_artnet), IngestOutcome::Rejected);
    assert!(state.get().into_vec().iter().all(|&b| b == 0));
}
