//! One motor channel: a speed class and its resolved tick table, and the
//! encode pipeline from a throttle value to a ready pulse train. The transmit
//! peripheral that emits the train is an external collaborator and owns its
//! own failure signal.

use vstd::prelude::*;

use crate::frame::spec_crc;
use crate::frame::spec_frame;
use crate::pulses::build_pulse_train;
use crate::pulses::spec_pulse_train;
use crate::pulses::Pulse;
use crate::timing::BitTicks;
use crate::timing::DShotSpeed;

verus! {

/// The one failure the protocol layer reports: the transmit collaborator
/// could not send a pulse train.
#[derive(Debug, Clone, Copy, PartialEq, Eq, Structural)]
pub struct TransmitFailure;

/// Protocol state of one motor channel: the chosen rate class and the tick
/// table every frame is timed with.
#[derive(Debug, Clone, PartialEq, Eq, Structural)]
pub struct DShot {
    pub speed: DShotSpeed,
    pub bit_ticks: BitTicks,
}

impl DShot {
    /// Clock frequency used when the caller gives none: 80 MHz.
    pub open spec fn spec_clk_or_default(clk_speed: Option<u32>) -> u32 {
        match clk_speed {
            Some(c) => c,
            None => 80_000_000,
        }
    }

    /// Clock divider used when the caller gives none: 1.
    pub open spec fn spec_divider_or_default(clk_divider: Option<u8>) -> u8 {
        match clk_divider {
            Some(d) => d,
            None => 1,
        }
    }

    /// A channel for the given rate class, its tick table calibrated from the
    /// given clock configuration, or from the 80 MHz / divider 1 reference
    /// clock where none is given. A zero clock or divider is a documented
    /// precondition violation, not a defended error.
    pub fn new(speed: DShotSpeed, clk_speed: Option<u32>, clk_divider: Option<u8>) -> (r: Self)
        requires
            clk_speed matches Some(c) ==> c > 0,
            clk_divider matches Some(d) ==> d > 0,
        ensures
            r.speed == speed,
            r.bit_ticks == BitTicks::spec_from_clk(
                Self::spec_clk_or_default(clk_speed),
                Self::spec_divider_or_default(clk_divider),
                speed.spec_bit_times(),
            ),
            r.bit_ticks.wf(),
    {
        let clk_speed: u32 = match clk_speed {
            Some(c) => c,
            None => 80_000_000,
        };
        let clk_divider: u8 = match clk_divider {
            Some(d) => d,
            None => 1,
        };
        let bit_ticks = BitTicks::from_clk(clk_speed, clk_divider, speed.bit_times());
        Self { speed, bit_ticks }
    }

    /// The checksum nibble of a 12-bit payload.
    pub fn calculate_crc(frame: u16) -> (r: u16)
        ensures
            r == spec_crc(frame),
    {
        (frame ^ (frame >> 4) ^ (frame >> 8)) & 0xF
    }

    /// The 16-bit frame for a throttle or command value: the value masked to
    /// 11 bits and shifted left once, the telemetry flag in the next bit, and
    /// the checksum in the low nibble. Out-of-range values are truncated by
    /// the mask, never rejected.
    pub fn create_frame(value: u16, telemetry: bool) -> (r: u16)
        ensures
            r == spec_frame(value, telemetry),
    {
        let frame: u16 = ((value & 0x07FF) << 1) | if telemetry { 1u16 } else { 0u16 };
        let crc: u16 = Self::calculate_crc(frame);
        (frame << 4) | crc
    }

    /// The pulse train that transmits one throttle or command value on this
    /// channel: the encoded frame's 16 bits timed by the channel's tick
    /// table, closed by the zero terminator.
    pub fn create_pulses(&mut self, throttle_value: u16, telemetry: bool) -> (r: Vec<Pulse>)
        ensures
            *final(self) == *old(self),
            r@ == spec_pulse_train(spec_frame(throttle_value, telemetry), old(self).bit_ticks),
            r@.len() == 17,
    {
        let frame = Self::create_frame(throttle_value, telemetry);
        build_pulse_train(frame, &self.bit_ticks)
    }
}

} // verus!
