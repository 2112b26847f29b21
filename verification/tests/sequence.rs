use dshot::channel::DShot;
use dshot::channel::TransmitFailure;
use dshot::sequence::update_frames;
use dshot::sequence::ARM_DELAY_MS;
use dshot::sequence::ARM_FRAME_COUNT;
use dshot::ArmAction;
use dshot::ArmSequence;
use dshot::UpdateAction;
use dshot::UpdateSequence;

#[test]
fn arm_sends_exactly_100_frames() {
    let mut seq = ArmSequence::new();
    let mut sent: u32 = 0;
    loop {
        match seq.next_action() {
            ArmAction::SendZeroFrame => {
                assert_eq!(seq.frame(), DShot::create_frame(0, false));
                assert_eq!(seq.delay_after_ms(), 20);
                seq.record(Ok(()));
                sent += 1;
            }
            ArmAction::Finished => break,
        }
    }
    assert_eq!(sent, 100);
    assert_eq!(seq.result(), Ok(()));
}

#[test]
fn arm_constants() {
    assert_eq!(ARM_FRAME_COUNT, 100);
    assert_eq!(ARM_DELAY_MS, 20);
}

#[test]
fn arm_frame_is_zero_throttle_without_telemetry() {
    let seq = ArmSequence::new();
    let frame = seq.frame();
    assert_eq!((frame >> 5) & 0x7FF, 0);
    assert_eq!((frame >> 4) & 1, 0);
}

#[test]
fn arm_stops_on_first_failure() {
    let mut seq = ArmSequence::new();
    for _ in 0..3 {
        assert_eq!(seq.next_action(), ArmAction::SendZeroFrame);
        seq.record(Ok(()));
    }
    assert_eq!(seq.next_action(), ArmAction::SendZeroFrame);
    seq.record(Err(TransmitFailure));
    // no further frame is asked for, and the failure is reported
    assert_eq!(seq.next_action(), ArmAction::Finished);
    assert_eq!(seq.result(), Err(TransmitFailure));
}

#[test]
fn update_tick_writes_one_frame_per_channel_in_order() {
    let mut seq = UpdateSequence::new([0, 100, 2000, 2047]);
    let mut written: Vec<u16> = Vec::new();
    loop {
        match seq.next_action() {
            UpdateAction::SendFrame => {
                written.push(seq.frame());
                seq.record(Ok(()));
            }
            UpdateAction::Finished => break,
        }
    }
    assert_eq!(
        written,
        vec![
            DShot::create_frame(0, false),
            DShot::create_frame(100, false),
            DShot::create_frame(2000, false),
            DShot::create_frame(2047, false),
        ]
    );
    assert_eq!(seq.result(), Ok(()));
}

#[test]
fn update_tick_stops_on_first_failure() {
    let mut seq = UpdateSequence::new([10, 20, 30, 40]);
    // first channel succeeds, second fails
    assert_eq!(seq.next_action(), UpdateAction::SendFrame);
    assert_eq!(seq.frame(), DShot::create_frame(10, false));
    seq.record(Ok(()));
    assert_eq!(seq.next_action(), UpdateAction::SendFrame);
    assert_eq!(seq.frame(), DShot::create_frame(20, false));
    seq.record(Err(TransmitFailure));
    // the third and fourth channels stay unwritten, and the failure is
    // reported
    assert_eq!(seq.next_action(), UpdateAction::Finished);
    assert_eq!(seq.channels_written, 1);
    assert_eq!(seq.result(), Err(TransmitFailure));
}

#[test]
fn update_frames_one_per_channel_in_order() {
    let frames = update_frames(&[0, 100, 2000, 2047]);
    assert_eq!(frames.len(), 4);
    assert_eq!(frames[0], DShot::create_frame(0, false));
    assert_eq!(frames[1], DShot::create_frame(100, false));
    assert_eq!(frames[2], DShot::create_frame(2000, false));
    assert_eq!(frames[3], DShot::create_frame(2047, false));
}

#[test]
fn update_frames_never_request_telemetry() {
    let frames = update_frames(&[1, 2, 3, 4]);
    for frame in frames {
        assert_eq!((frame >> 4) & 1, 0);
    }
}
