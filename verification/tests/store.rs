use lunchbox_dmx::dmx::{DmxState, Universe, UNIVERSE_SIZE};
use lunchbox_dmx::DmxError;

#[test]
fn new_store_is_all_zero() {
    let state = DmxState::new();
    let bytes = state.get().into_vec();
    assert_eq!(bytes.len(), UNIVERSE_SIZE);
    assert!(bytes.iter().all(|&b| b == 0));
}

#[test]
fn channel_write_then_read_round_trip() {
    let state = DmxState::new();
    for i in [0usize, 1, 7, 255, 510, 511] {
        assert_eq!(state.set_channel(i, 42), Ok(()));
        assert_eq!(state.get_channel(i), Ok(42));
        assert_eq!(state.get().into_vec()[i], 42);
    }
}

#[test]
fn replace_then_get_round_trip() {
    let state = DmxState::new();
    let bytes: Vec<u8> = (0..UNIVERSE_SIZE).map(|i| (i % 256) as u8).collect();
    let u = Universe::from_bytes(&bytes).unwrap();
    state.set(u);
    assert_eq!(state.get().into_vec(), bytes);
}

#[test]
fn out_of_range_channel_is_rejected_without_mutation() {
    let state = DmxState::new();
    assert_eq!(state.get_channel(UNIVERSE_SIZE), Err(DmxError::OutOfRangeChannel));
    assert_eq!(state.set_channel(UNIVERSE_SIZE, 1), Err(DmxError::OutOfRangeChannel));
    assert_eq!(state.get_channel(usize::MAX), Err(DmxError::OutOfRangeChannel));
    assert!(state.get().into_vec().iter().all(|&b| b == 0));
}

#[test]
fn short_buffer_makes_no_universe() {
    let bytes: Vec<u8> = vec![1; UNIVERSE_SIZE - 1];
    assert!(Universe::from_bytes(&bytes).is_none());
}

#[test]
fn oversized_buffer_is_truncated_to_one_universe() {
    let mut bytes: Vec<u8> = vec![9; UNIVERSE_SIZE];
    bytes.extend_from_slice(&[1, 2, 3]);
    let u = Universe::from_bytes(&bytes).unwrap();
    assert_eq!(u.into_vec(), vec![9; UNIVERSE_SIZE]);
}

#[test]
fn overlapping_reads_agree() {
    let state = DmxState::new();
    state.set_channel(100, 64).unwrap();
    let (a, b) = state.paired_snapshots();
    assert_eq!(a.into_vec(), b.into_vec());
}

#[test]
fn snapshots_are_independent_copies() {
    let state = DmxState::new();
    let mut snap = state.get();
    snap.write_channel(0, 99);
    assert_eq!(snap.channel(0), 99);
    assert_eq!(state.get_channel(0), Ok(0));
}
