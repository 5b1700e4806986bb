//! The real-time transmit path: planning one DMX512 frame from a
//! snapshot, the protocol timing budget, the write-progress bookkeeping
//! of the serial push, and the self-healing supervisor rule.
//!
//! The hardware pass itself — holding the line in break, waiting the
//! mark-after-break, pushing bytes into the UART — lives outside this
//! crate; it is handed a fully computed plan and a timing budget that
//! is proved to honor the protocol's lower bounds.

use vstd::prelude::*;

use crate::dmx::{Universe, UNIVERSE_SIZE};
use crate::DmxError;

verus! {

/// Protocol-mandated minimum break duration, in microseconds.
pub const MIN_BREAK_MICROS: u64 = 92;

/// Protocol-mandated minimum mark-after-break duration, in microseconds.
pub const MIN_MAB_MICROS: u64 = 12;

/// The fixed DMX512 baud rate.
pub const DMX_BAUD: u32 = 250_000;

/// Data bits per serial word on the DMX line.
pub const DMX_DATA_BITS: u8 = 8;

/// Stop bits per serial word on the DMX line.
pub const DMX_STOP_BITS: u8 = 2;

/// Largest value the derived indicator duty can take.
pub const MAX_INDICATOR_DUTY: u32 = 255;

/// Relies on `dmx_rdm::consts::BREAK_MICROS`: the break duration, in
/// microseconds, that the DMX library is written for.
#[verifier::external_body]
fn dmx_break_micros() -> (r: u64)
    ensures
        r == 200u64,
{
    dmx_rdm::consts::BREAK_MICROS
}

/// Relies on `dmx_rdm::consts::MAB_MICROS`: the mark-after-break
/// duration, in microseconds, that the DMX library is written for.
#[verifier::external_body]
fn dmx_mab_micros() -> (r: u64)
    ensures
        r == 48u64,
{
    dmx_rdm::consts::MAB_MICROS
}

/// Relies on `dmx_rdm::consts::DMX_BAUD`: the serial baud rate the DMX
/// library requires of its UART drivers.
#[verifier::external_body]
fn dmx_baud() -> (r: u32)
    ensures
        r == 250_000u32,
{
    dmx_rdm::consts::DMX_BAUD
}

/// Relies on `dmx_rdm::consts::INTER_SLOT_TIME_MILLIS`: the spacing, in
/// milliseconds, the DMX library waits between frames.
#[verifier::external_body]
fn dmx_inter_frame_millis() -> (r: u64)
    ensures
        r == 2u64,
{
    dmx_rdm::consts::INTER_SLOT_TIME_MILLIS as u64
}

/// Relies on `dmx_rdm::consts::DMX_NULL_START`: the null start code
/// that opens every DMX512 data frame.
#[verifier::external_body]
fn dmx_null_start() -> (r: u8)
    ensures
        r == 0u8,
{
    dmx_rdm::consts::DMX_NULL_START
}

/// The timing budget of one serial frame: how long the line is held in
/// break and in mark-after-break, the baud rate, and the spacing
/// enforced before the next frame begins.
pub struct FrameTiming {
    pub break_micros: u64,
    pub mab_micros: u64,
    pub baud: u32,
    pub data_bits: u8,
    pub stop_bits: u8,
    pub parity_enabled: bool,
    pub inter_frame_millis: u64,
}

impl FrameTiming {
    /// A timing budget is valid when it meets every protocol-mandated
    /// lower bound and fixes the line discipline the protocol asks
    /// for; transmitting faster produces invalid frames on real
    /// fixtures.
    pub open spec fn wf(&self) -> bool {
        &&& self.break_micros >= MIN_BREAK_MICROS
        &&& self.mab_micros >= MIN_MAB_MICROS
        &&& self.baud == DMX_BAUD
        &&& self.data_bits == DMX_DATA_BITS
        &&& self.stop_bits == DMX_STOP_BITS
        &&& !self.parity_enabled
        &&& self.inter_frame_millis >= 1
    }
}

/// The timing budget the node transmits with, taken from the DMX
/// library's constants and proved to honor the protocol minimums.
pub fn protocol_timing() -> (t: FrameTiming)
    ensures
        t.wf(),
        t.break_micros == 200,
        t.mab_micros == 48,
        t.baud == DMX_BAUD,
        t.inter_frame_millis == 2,
{
    FrameTiming {
        break_micros: dmx_break_micros(),
        mab_micros: dmx_mab_micros(),
        baud: dmx_baud(),
        data_bits: DMX_DATA_BITS,
        stop_bits: DMX_STOP_BITS,
        parity_enabled: false,
        inter_frame_millis: dmx_inter_frame_millis(),
    }
}

/// One complete DMX512 data frame: the null start code followed by the
/// 512 channel bytes.
pub open spec fn dmx_frame(u: Seq<u8>) -> Seq<u8> {
    seq![0u8] + u
}

/// Serializes one snapshot into the frame the UART transmits.
pub fn build_frame(u: &Universe) -> (r: Vec<u8>)
    requires
        u.wf(),
    ensures
        r@ == dmx_frame(u@),
        r@.len() == UNIVERSE_SIZE + 1,
{
    let mut frame: Vec<u8> = Vec::new();
    frame.push(dmx_null_start());
    let mut n: usize = 0;
    while n < UNIVERSE_SIZE
        invariant
            u.wf(),
            n <= UNIVERSE_SIZE,
            frame@.len() == n + 1,
            frame@[0] == 0u8,
            forall|i: int| 0 <= i < n ==> frame@[i + 1] == u@[i],
        decreases UNIVERSE_SIZE - n,
    {
        frame.push(u.channel(n));
        n = n + 1;
    }
    proof {
        assert(frame@ =~= dmx_frame(u@));
    }
    frame
}

/// The indicator duty derived from a master channel value: the linear
/// 0–255 mapping onto the hardware's duty range.
pub open spec fn duty_of(v: u8) -> u32 {
    v as u32
}

/// The duty value the transmit path applies to the indicator, derived
/// from channel 0 of the snapshot.
pub fn indicator_duty(u: &Universe) -> (r: u32)
    requires
        u.wf(),
    ensures
        r == duty_of(u@[0]),
        r <= MAX_INDICATOR_DUTY,
{
    u.channel(0) as u32
}

/// From an all-dark universe, driving the master channel to full scale
/// drives the derived indicator duty to its maximum output value.
pub proof fn lemma_full_scale_master_gives_max_duty(u: Seq<u8>)
    requires
        u.len() == UNIVERSE_SIZE,
        forall|i: int| 0 <= i < UNIVERSE_SIZE ==> u[i] == 0u8,
    ensures
        duty_of(u.update(0, 255u8)[0]) == MAX_INDICATOR_DUTY,
{
}

/// Everything one inner-loop pass of the transmit worker hands to the
/// hardware: the indicator duty and the serialized frame.
pub struct FramePlan {
    pub duty: u32,
    pub frame: Vec<u8>,
}

/// Computes one transmission from one snapshot: derive the indicator
/// duty from channel 0 and serialize the full frame.
pub fn plan_transmission(u: &Universe) -> (r: FramePlan)
    requires
        u.wf(),
    ensures
        r.duty == duty_of(u@[0]),
        r.duty <= MAX_INDICATOR_DUTY,
        r.frame@ == dmx_frame(u@),
        r.frame@.len() == UNIVERSE_SIZE + 1,
{
    FramePlan { duty: indicator_duty(u), frame: build_frame(u) }
}

/// Progress of pushing one frame into the serial transmitter, which
/// may accept the bytes in several partial writes.
pub struct WriteProgress {
    pub written: usize,
    pub total: usize,
}

impl WriteProgress {
    /// Never more bytes written than the frame holds.
    pub open spec fn wf(&self) -> bool {
        self.written <= self.total
    }

    /// Begins tracking a frame of `total` bytes.
    pub fn start(total: usize) -> (r: WriteProgress)
        ensures
            r.wf(),
            r.written == 0,
            r.total == total,
    {
        WriteProgress { written: 0, total }
    }

    /// Accounts for one partial write of `n` bytes.
    pub fn record(&mut self, n: usize)
        requires
            old(self).wf(),
            n <= old(self).total - old(self).written,
        ensures
            final(self).wf(),
            final(self).written == old(self).written + n,
            final(self).total == old(self).total,
    {
        self.written = self.written + n;
    }

    /// Whether the whole frame has been pushed out.
    pub fn is_complete(&self) -> (r: bool)
        ensures
            r == (self.written == self.total),
    {
        self.written == self.total
    }

    /// The byte count to report to the DMX library once the frame is
    /// out: the payload slots, excluding the start code, which is what
    /// the library checks the write against.
    pub fn reported_payload(&self) -> (r: usize)
        requires
            self.wf(),
            self.written == self.total,
            self.total >= 1,
        ensures
            r == self.total - 1,
    {
        self.total - 1
    }
}

/// What the supervisor does after its inner transmit loop ends.
#[derive(Clone, Copy, Debug, PartialEq, Eq, Structural)]
pub enum SupervisorDirective {
    LogAndRestart,
    Halt,
}

/// The self-healing rule of the transmit path: every inner-loop
/// failure is answered with exactly one log entry and one restart,
/// whatever the failure was — infinite retries, no backoff, never a
/// permanent halt for a recoverable transport error.
pub fn on_transmit_failure(_failure: &DmxError) -> (r: SupervisorDirective)
    ensures
        r == SupervisorDirective::LogAndRestart,
{
    SupervisorDirective::LogAndRestart
}

} // verus!
