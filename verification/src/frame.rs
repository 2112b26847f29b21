//! Bit layout of the 16-bit DShot frame: an 11-bit value, the telemetry
//! request flag, and a 4-bit checksum.

use vstd::prelude::*;

verus! {

/// Checksum nibble of a 12-bit payload: the XOR of its three nibbles.
pub open spec fn spec_crc(payload: u16) -> u16 {
    (payload ^ (payload >> 4) ^ (payload >> 8)) & 0xF
}

/// The 12-bit payload: the value masked to 11 bits, shifted left once, with
/// the telemetry flag in bit 0.
pub open spec fn spec_payload(value: u16, telemetry: bool) -> u16 {
    ((value & 0x07FF) << 1) | (if telemetry { 1u16 } else { 0u16 })
}

/// The full 16-bit frame: payload in bits 15..=4, checksum in bits 3..=0.
pub open spec fn spec_frame(value: u16, telemetry: bool) -> u16 {
    (spec_payload(value, telemetry) << 4) | spec_crc(spec_payload(value, telemetry))
}

/// The 11-bit value field of an encoded frame.
pub open spec fn spec_frame_value(frame: u16) -> u16 {
    (frame >> 5) & 0x07FF
}

/// The telemetry flag of an encoded frame.
pub open spec fn spec_frame_telemetry(frame: u16) -> bool {
    (frame >> 4) & 1 == 1
}

/// The 12-bit payload of an encoded frame.
pub open spec fn spec_frame_payload(frame: u16) -> u16 {
    frame >> 4
}

/// The checksum nibble of an encoded frame.
pub open spec fn spec_frame_checksum(frame: u16) -> u16 {
    frame & 0xF
}

/// Round trip: reversing the shifts and masks on an encoded frame recovers
/// the value masked to 11 bits and the telemetry flag, and the stored
/// checksum nibble is the checksum of the recovered payload. Values above
/// 2047 are truncated by the mask, never rejected.
pub proof fn lemma_frame_round_trip(value: u16, telemetry: bool)
    ensures
        spec_frame_value(spec_frame(value, telemetry)) == (value & 0x07FF),
        spec_frame_telemetry(spec_frame(value, telemetry)) == telemetry,
        spec_frame_payload(spec_frame(value, telemetry)) == spec_payload(value, telemetry),
        spec_frame_checksum(spec_frame(value, telemetry)) == spec_crc(spec_frame_payload(spec_frame(value, telemetry))),
{
    assert(spec_frame_value(spec_frame(value, telemetry)) == (value & 0x07FF)) by (bit_vector);
    assert(spec_frame_telemetry(spec_frame(value, telemetry)) == telemetry) by (bit_vector);
    assert(spec_frame_payload(spec_frame(value, telemetry)) == spec_payload(value, telemetry))
        by (bit_vector);
    assert(spec_frame_checksum(spec_frame(value, telemetry)) == spec_crc(spec_frame_payload(spec_frame(value, telemetry))))
        by (bit_vector);
}

/// Determinism: the frame is a function of the value and the telemetry flag
/// alone; equal inputs give an identical frame.
pub proof fn lemma_frame_deterministic(value1: u16, telemetry1: bool, value2: u16, telemetry2: bool)
    requires
        value1 == value2,
        telemetry1 == telemetry2,
    ensures
        spec_frame(value1, telemetry1) == spec_frame(value2, telemetry2),
{
}

/// The reserved command codes of the low value range; values 0 through 47
/// are commands, 48 through 2047 are throttle.
#[allow(non_camel_case_types)]
#[derive(Debug)]
pub enum DSHOT_TELEMETRY_CMD {
    MOTOR_STOP,
    BEEP1,
    BEEP2,
    BEEP3,
    BEEP4,
    BEEP5,
    ESC_INFO,
    SPIN_DIRECTION_1,
    SPIN_DIRECTION_2,
    MODE_3D_OFF,
    MODE_3D_ON,
    SETTINGS_REQUEST,
    SAVE_SETTINGS,
    EXTENDED_TELEMETRY_ENABLE,
    EXTENDED_TELEMETRY_DISABLE,
}

impl DSHOT_TELEMETRY_CMD {
    pub open spec fn spec_code(&self) -> u16 {
        match self {
            DSHOT_TELEMETRY_CMD::MOTOR_STOP => 0x0,
            DSHOT_TELEMETRY_CMD::BEEP1 => 0x1,
            DSHOT_TELEMETRY_CMD::BEEP2 => 0x2,
            DSHOT_TELEMETRY_CMD::BEEP3 => 0x3,
            DSHOT_TELEMETRY_CMD::BEEP4 => 0x4,
            DSHOT_TELEMETRY_CMD::BEEP5 => 0x5,
            DSHOT_TELEMETRY_CMD::ESC_INFO => 0x6,
            DSHOT_TELEMETRY_CMD::SPIN_DIRECTION_1 => 0x7,
            DSHOT_TELEMETRY_CMD::SPIN_DIRECTION_2 => 0x8,
            DSHOT_TELEMETRY_CMD::MODE_3D_OFF => 0x9,
            DSHOT_TELEMETRY_CMD::MODE_3D_ON => 0xA,
            DSHOT_TELEMETRY_CMD::SETTINGS_REQUEST => 0xB,
            DSHOT_TELEMETRY_CMD::SAVE_SETTINGS => 0xC,
            DSHOT_TELEMETRY_CMD::EXTENDED_TELEMETRY_ENABLE => 0xD,
            DSHOT_TELEMETRY_CMD::EXTENDED_TELEMETRY_DISABLE => 0xE,
        }
    }

    /// The command's value-field code.
    pub fn code(&self) -> (c: u16)
        ensures
            c == self.spec_code(),
    {
        match self {
            DSHOT_TELEMETRY_CMD::MOTOR_STOP => 0x0,
            DSHOT_TELEMETRY_CMD::BEEP1 => 0x1,
            DSHOT_TELEMETRY_CMD::BEEP2 => 0x2,
            DSHOT_TELEMETRY_CMD::BEEP3 => 0x3,
            DSHOT_TELEMETRY_CMD::BEEP4 => 0x4,
            DSHOT_TELEMETRY_CMD::BEEP5 => 0x5,
            DSHOT_TELEMETRY_CMD::ESC_INFO => 0x6,
            DSHOT_TELEMETRY_CMD::SPIN_DIRECTION_1 => 0x7,
            DSHOT_TELEMETRY_CMD::SPIN_DIRECTION_2 => 0x8,
            DSHOT_TELEMETRY_CMD::MODE_3D_OFF => 0x9,
            DSHOT_TELEMETRY_CMD::MODE_3D_ON => 0xA,
            DSHOT_TELEMETRY_CMD::SETTINGS_REQUEST => 0xB,
            DSHOT_TELEMETRY_CMD::SAVE_SETTINGS => 0xC,
            DSHOT_TELEMETRY_CMD::EXTENDED_TELEMETRY_ENABLE => 0xD,
            DSHOT_TELEMETRY_CMD::EXTENDED_TELEMETRY_DISABLE => 0xE,
        }
    }
}

} // verus!
