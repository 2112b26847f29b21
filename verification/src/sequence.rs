//! Sequencing decisions for arming a channel and for synchronized group
//! updates. The waits and the transmissions themselves are performed by the
//! caller's loop against external collaborators; every decision — which frame
//! to send next, whether to go on, what to report — is taken here.

use vstd::prelude::*;

use crate::channel::DShot;
use crate::channel::TransmitFailure;
use crate::frame::spec_frame;

verus! {

/// Number of zero-throttle frames an arming handshake sends.
pub const ARM_FRAME_COUNT: u16 = 100;

/// Wait after each arming frame, in milliseconds.
pub const ARM_DELAY_MS: u32 = 20;

/// What the arming loop is to do next.
#[derive(Debug, Clone, Copy, PartialEq, Eq, Structural)]
pub enum ArmAction {
    /// Transmit one zero-throttle, non-telemetry frame, then wait
    /// `ARM_DELAY_MS` milliseconds.
    SendZeroFrame,
    /// The handshake is over; report its result.
    Finished,
}

/// State of one arming handshake: how many frames have been sent, and
/// whether a transmission has failed. The handshake sends
/// `ARM_FRAME_COUNT` zero-throttle frames, waiting after each, and aborts
/// on the first failure without sending further frames.
#[derive(Debug, Clone, Copy, PartialEq, Eq, Structural)]
pub struct ArmSequence {
    pub frames_sent: u16,
    pub failed: bool,
}

impl ArmSequence {
    pub open spec fn wf(&self) -> bool {
        self.frames_sent <= ARM_FRAME_COUNT
    }

    /// The handshake is over once a frame has failed or all frames are sent.
    pub open spec fn spec_finished(&self) -> bool {
        self.failed || self.frames_sent == ARM_FRAME_COUNT
    }

    pub open spec fn spec_next_action(&self) -> ArmAction {
        if self.spec_finished() {
            ArmAction::Finished
        } else {
            ArmAction::SendZeroFrame
        }
    }

    pub fn new() -> (s: Self)
        ensures
            s.frames_sent == 0,
            !s.failed,
            s.wf(),
    {
        Self { frames_sent: 0, failed: false }
    }

    /// The next decision: send another zero-throttle frame until all
    /// `ARM_FRAME_COUNT` are out, and stop at once after a failure.
    pub fn next_action(&self) -> (a: ArmAction)
        ensures
            a == self.spec_next_action(),
    {
        if self.failed || self.frames_sent == ARM_FRAME_COUNT {
            ArmAction::Finished
        } else {
            ArmAction::SendZeroFrame
        }
    }

    /// The frame every arming step transmits: zero throttle, no telemetry.
    pub fn frame(&self) -> (f: u16)
        ensures
            f == spec_frame(0, false),
    {
        DShot::create_frame(0, false)
    }

    /// The wait after each transmitted arming frame, in milliseconds.
    pub fn delay_after_ms(&self) -> (d: u32)
        ensures
            d == ARM_DELAY_MS,
    {
        ARM_DELAY_MS
    }

    /// Record the outcome of the transmit the last `SendZeroFrame` decision
    /// asked for: a success counts the frame, a failure aborts the handshake.
    pub fn record(&mut self, outcome: Result<(), TransmitFailure>)
        requires
            old(self).wf(),
            !old(self).spec_finished(),
        ensures
            final(self).wf(),
            outcome is Ok ==> *final(self) == (ArmSequence {
                frames_sent: (old(self).frames_sent + 1) as u16,
                failed: old(self).failed,
            }),
            outcome is Err ==> *final(self) == (ArmSequence {
                frames_sent: old(self).frames_sent,
                failed: true,
            }),
    {
        match outcome {
            Ok(()) => {
                self.frames_sent = self.frames_sent + 1;
            }
            Err(_) => {
                self.failed = true;
            }
        }
    }

    /// The handshake's result, once it is over: the failure if one aborted
    /// it, success otherwise.
    pub fn result(&self) -> (r: Result<(), TransmitFailure>)
        requires
            self.spec_finished(),
        ensures
            r == (if self.failed {
                Err::<(), TransmitFailure>(TransmitFailure)
            } else {
                Ok::<(), TransmitFailure>(())
            }),
    {
        if self.failed {
            Err(TransmitFailure)
        } else {
            Ok(())
        }
    }
}

/// An arming handshake reports success only after exactly `ARM_FRAME_COUNT`
/// frames were sent and none failed.
pub proof fn lemma_arm_success_count(s: ArmSequence)
    requires
        s.wf(),
        s.spec_finished(),
        !s.failed,
    ensures
        s.frames_sent == ARM_FRAME_COUNT,
{
}

/// After a transmit failure the handshake asks for no further frame: its
/// next decision is `Finished`, whatever was sent so far.
pub proof fn lemma_arm_stops_on_failure(s: ArmSequence)
    requires
        s.failed,
    ensures
        s.spec_next_action() == ArmAction::Finished,
{
}

/// What the group-update loop is to do next.
#[derive(Debug, Clone, Copy, PartialEq, Eq, Structural)]
pub enum UpdateAction {
    /// Transmit the frame of the channel `channels_written` points at.
    SendFrame,
    /// The tick is over; report its result.
    Finished,
}

/// State of one synchronized group-update tick: the four throttle values,
/// how many channels have been written, and whether a transmission has
/// failed. The tick writes one non-telemetry frame per channel in fixed
/// channel order and aborts on the first failure, leaving the remaining
/// channels unwritten.
#[derive(Debug, Clone, Copy, PartialEq, Eq)]
pub struct UpdateSequence {
    pub throttles: [u16; 4],
    pub channels_written: u8,
    pub failed: bool,
}

impl UpdateSequence {
    pub open spec fn wf(&self) -> bool {
        self.channels_written <= 4
    }

    /// The tick is over once a frame has failed or all four channels are
    /// written.
    pub open spec fn spec_finished(&self) -> bool {
        self.failed || self.channels_written == 4
    }

    pub open spec fn spec_next_action(&self) -> UpdateAction {
        if self.spec_finished() {
            UpdateAction::Finished
        } else {
            UpdateAction::SendFrame
        }
    }

    pub fn new(throttles: [u16; 4]) -> (s: Self)
        ensures
            s.throttles == throttles,
            s.channels_written == 0,
            !s.failed,
            s.wf(),
    {
        Self { throttles, channels_written: 0, failed: false }
    }

    /// The next decision: write the next channel's frame until all four are
    /// out, and stop at once after a failure.
    pub fn next_action(&self) -> (a: UpdateAction)
        ensures
            a == self.spec_next_action(),
    {
        if self.failed || self.channels_written == 4 {
            UpdateAction::Finished
        } else {
            UpdateAction::SendFrame
        }
    }

    /// The frame the pending channel is to receive: its own throttle value,
    /// no telemetry requested.
    pub fn frame(&self) -> (f: u16)
        requires
            self.wf(),
            !self.spec_finished(),
        ensures
            f == spec_frame(self.throttles@[self.channels_written as int], false),
    {
        DShot::create_frame(self.throttles[self.channels_written as usize], false)
    }

    /// Record the outcome of the transmit the last `SendFrame` decision
    /// asked for: a success moves on to the next channel, a failure aborts
    /// the tick.
    pub fn record(&mut self, outcome: Result<(), TransmitFailure>)
        requires
            old(self).wf(),
            !old(self).spec_finished(),
        ensures
            final(self).wf(),
            outcome is Ok ==> *final(self) == (UpdateSequence {
                throttles: old(self).throttles,
                channels_written: (old(self).channels_written + 1) as u8,
                failed: old(self).failed,
            }),
            outcome is Err ==> *final(self) == (UpdateSequence {
                throttles: old(self).throttles,
                channels_written: old(self).channels_written,
                failed: true,
            }),
    {
        match outcome {
            Ok(()) => {
                self.channels_written = self.channels_written + 1;
            }
            Err(_) => {
                self.failed = true;
            }
        }
    }

    /// The tick's result, once it is over: the failure if one aborted it,
    /// success otherwise.
    pub fn result(&self) -> (r: Result<(), TransmitFailure>)
        requires
            self.spec_finished(),
        ensures
            r == (if self.failed {
                Err::<(), TransmitFailure>(TransmitFailure)
            } else {
                Ok::<(), TransmitFailure>(())
            }),
    {
        if self.failed {
            Err(TransmitFailure)
        } else {
            Ok(())
        }
    }
}

/// A group-update tick reports success only after all four channels were
/// written, one frame each.
pub proof fn lemma_update_success_count(s: UpdateSequence)
    requires
        s.wf(),
        s.spec_finished(),
        !s.failed,
    ensures
        s.channels_written == 4,
{
}

/// After a transmit failure the tick writes no further channel: its next
/// decision is `Finished`, and the channels past `channels_written` stay
/// unwritten.
pub proof fn lemma_update_stops_on_failure(s: UpdateSequence)
    requires
        s.failed,
    ensures
        s.spec_next_action() == UpdateAction::Finished,
{
}

/// Frames for one synchronized group update: exactly one frame per channel,
/// in fixed channel order, telemetry never requested. The fail-fast
/// transmission of this list is what `UpdateSequence` decides step by step.
pub fn update_frames(throttles: &[u16; 4]) -> (r: Vec<u16>)
    ensures
        r@.len() == 4,
        forall|i: int| 0 <= i < 4 ==> r@[i] == spec_frame(throttles@[i], false),
{
    let mut frames: Vec<u16> = Vec::new();
    frames.push(DShot::create_frame(throttles[0], false));
    frames.push(DShot::create_frame(throttles[1], false));
    frames.push(DShot::create_frame(throttles[2], false));
    frames.push(DShot::create_frame(throttles[3], false));
    frames
}

} // verus!
