use dshot::DShot;
use dshot::DSHOT_TELEMETRY_CMD;

#[test]
fn frame_concrete_example() {
    // payload = (1000 & 0x7FF) << 1 = 2000; crc = (0x7D0 ^ 0x07D ^ 0x007) & 0xF = 0xA;
    // frame = (2000 << 4) | 0xA = 32010
    assert_eq!(DShot::create_frame(1000, false), 32010);
}

#[test]
fn crc_concrete_example() {
    assert_eq!(DShot::calculate_crc(2000), 0xA);
}

#[test]
fn crc_of_zero_payload_is_zero() {
    assert_eq!(DShot::calculate_crc(0), 0);
}

#[test]
fn frame_zero_throttle_no_telemetry() {
    assert_eq!(DShot::create_frame(0, false), 0);
}

#[test]
fn frame_max_throttle_with_telemetry() {
    // payload = 0xFFF; crc = (0xFFF ^ 0xFF ^ 0xF) & 0xF = 0xF; frame = 0xFFFF
    assert_eq!(DShot::create_frame(2047, true), 0xFFFF);
}

#[test]
fn frame_telemetry_bit_set() {
    let frame = DShot::create_frame(1000, true);
    assert_eq!((frame >> 4) & 1, 1);
}

#[test]
fn frame_round_trip_recovers_fields() {
    for &(value, telemetry) in &[(0u16, false), (47, true), (48, false), (1000, true), (2047, false)] {
        let frame = DShot::create_frame(value, telemetry);
        assert_eq!((frame >> 5) & 0x7FF, value & 0x7FF);
        assert_eq!((frame >> 4) & 1 == 1, telemetry);
        let payload = frame >> 4;
        assert_eq!(frame & 0xF, (payload ^ (payload >> 4) ^ (payload >> 8)) & 0xF);
    }
}

#[test]
fn frame_deterministic() {
    assert_eq!(DShot::create_frame(1234, true), DShot::create_frame(1234, true));
    assert_eq!(DShot::create_frame(2047, false), DShot::create_frame(2047, false));
}

#[test]
fn frame_truncates_out_of_range_values() {
    // 2048 & 0x7FF == 0, so the frame equals the zero-throttle frame
    assert_eq!(DShot::create_frame(2048, false), DShot::create_frame(0, false));
    // 3000 & 0x7FF == 952
    let frame = DShot::create_frame(3000, true);
    assert_eq!((frame >> 5) & 0x7FF, 952);
    assert_eq!(DShot::create_frame(65535, false), DShot::create_frame(2047, false));
}

#[test]
fn command_codes() {
    assert_eq!(DSHOT_TELEMETRY_CMD::MOTOR_STOP.code(), 0x0);
    assert_eq!(DSHOT_TELEMETRY_CMD::BEEP1.code(), 0x1);
    assert_eq!(DSHOT_TELEMETRY_CMD::BEEP5.code(), 0x5);
    assert_eq!(DSHOT_TELEMETRY_CMD::ESC_INFO.code(), 0x6);
    assert_eq!(DSHOT_TELEMETRY_CMD::SPIN_DIRECTION_1.code(), 0x7);
    assert_eq!(DSHOT_TELEMETRY_CMD::SPIN_DIRECTION_2.code(), 0x8);
    assert_eq!(DSHOT_TELEMETRY_CMD::MODE_3D_OFF.code(), 0x9);
    assert_eq!(DSHOT_TELEMETRY_CMD::MODE_3D_ON.code(), 0xA);
    assert_eq!(DSHOT_TELEMETRY_CMD::SETTINGS_REQUEST.code(), 0xB);
    assert_eq!(DSHOT_TELEMETRY_CMD::SAVE_SETTINGS.code(), 0xC);
    assert_eq!(DSHOT_TELEMETRY_CMD::EXTENDED_TELEMETRY_ENABLE.code(), 0xD);
    assert_eq!(DSHOT_TELEMETRY_CMD::EXTENDED_TELEMETRY_DISABLE.code(), 0xE);
}
