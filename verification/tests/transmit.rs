use lunchbox_dmx::dmx::{DmxState, Universe, UNIVERSE_SIZE};
use lunchbox_dmx::transmit::{
    build_frame, indicator_duty, on_transmit_failure, plan_transmission, protocol_timing,
    SupervisorDirective, WriteProgress, DMX_BAUD, MAX_INDICATOR_DUTY, MIN_BREAK_MICROS,
    MIN_MAB_MICROS,
};
use lunchbox_dmx::DmxError;

#[test]
fn frame_is_start_code_then_all_channels() {
    let bytes: Vec<u8> = (0..UNIVERSE_SIZE).map(|i| (i % 256) as u8).collect();
    let u = Universe::from_bytes(&bytes).unwrap();
    let frame = build_frame(&u);
    assert_eq!(frame.len(), UNIVERSE_SIZE + 1);
    assert_eq!(frame[0], 0x00);
    assert_eq!(&frame[1..], bytes.as_slice());
}

#[test]
fn timing_budget_honors_protocol_minimums() {
    let t = protocol_timing();
    assert_eq!(t.break_micros, 200);
    assert_eq!(t.mab_micros, 48);
    assert_eq!(t.baud, 250_000);
    assert_eq!(t.inter_frame_millis, 2);
    assert!(t.break_micros >= MIN_BREAK_MICROS);
    assert!(t.mab_micros >= MIN_MAB_MICROS);
    assert_eq!(t.baud, DMX_BAUD);
    assert_eq!(t.data_bits, 8);
    assert_eq!(t.stop_bits, 2);
    assert!(!t.parity_enabled);
}

#[test]
fn full_scale_master_channel_gives_max_duty() {
    let state = DmxState::new();
    assert_eq!(indicator_duty(&state.get()), 0);
    state.set_channel(0, 255).unwrap();
    let plan = plan_transmission(&state.get());
    assert_eq!(plan.duty, MAX_INDICATOR_DUTY);
}

#[test]
fn duty_follows_master_channel_linearly() {
    let state = DmxState::new();
    for v in [0u8, 1, 127, 128, 254, 255] {
        state.set_channel(0, v).unwrap();
        assert_eq!(indicator_duty(&state.get()), v as u32);
    }
}

#[test]
fn plan_carries_the_snapshot_frame() {
    let state = DmxState::new();
    state.set_channel(511, 17).unwrap();
    let plan = plan_transmission(&state.get());
    assert_eq!(plan.frame.len(), UNIVERSE_SIZE + 1);
    assert_eq!(plan.frame[0], 0x00);
    assert_eq!(plan.frame[UNIVERSE_SIZE], 17);
}

#[test]
fn supervisor_answers_every_failure_with_one_restart() {
    for failure in [
        DmxError::TransportError,
        DmxError::MalformedPacket,
        DmxError::OutOfRangeChannel,
    ] {
        assert_eq!(on_transmit_failure(&failure), SupervisorDirective::LogAndRestart);
    }
}

#[test]
fn write_progress_accounts_partial_writes() {
    let mut progress = WriteProgress::start(UNIVERSE_SIZE + 1);
    assert!(!progress.is_complete());
    progress.record(100);
    assert!(!progress.is_complete());
    progress.record(413);
    assert!(progress.is_complete());
    assert_eq!(progress.reported_payload(), UNIVERSE_SIZE);
}
