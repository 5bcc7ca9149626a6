use camctl::config::{GimbalOption, RoninConfig};
use camctl::device::Command;
use camctl::ronin::{
    self, create_packet, create_zoom_packet, decode_status_frame, encode_value, isqrt,
    next_zoom_target, scale_value, zoom_increment, RoninAction,
};

fn still_command() -> Command {
    Command { pan: 0, tilt: 0, roll: 0, zoom: 0, focus: 0, autofocus: false }
}

fn plain_config(name: &str) -> RoninConfig {
    RoninConfig { name: name.to_string(), capabilities: None, options: None }
}

#[test]
fn scale_value_squares_magnitude() {
    assert_eq!(scale_value(500), 64);
    assert_eq!(scale_value(-250), -16);
    assert_eq!(scale_value(0), 0);
    assert_eq!(scale_value(1000), 256);
    assert_eq!(scale_value(-1000), -256);
    for v in [-1000i16, -999, -500, -1, 0, 1, 499, 1000] {
        let s = scale_value(v);
        assert!(-256 <= s && s <= 256);
        let encoded = 1024 + s as i32;
        assert!(768 <= encoded && encoded <= 1280);
    }
}

#[test]
fn encode_value_offsets_by_base() {
    assert_eq!(encode_value(0), vec![0x00, 0x04]);
    assert_eq!(encode_value(64), vec![0x40, 0x04]);
    assert_eq!(encode_value(-16), vec![0xf0, 0x03]);
}

#[test]
fn ptr_packet_layout_matches_protocol() {
    let frame = create_packet(7, 64, -16, 0);
    assert_eq!(frame.len(), 22);
    assert_eq!(
        hex::encode(&frame[..20]),
        "551604fc02040700400401f00300044004000002"
    );
}

#[test]
fn empty_command_on_disconnected_gimbal_is_silent() {
    let mut gimbal = ronin::create("cam1", &plain_config("MyRonin"));
    let plan = gimbal.plan_send(false, true, &still_command());
    assert!(plan.is_empty());
    assert_eq!(gimbal.seq, 0);

    // Connected but idle: still nothing on the wire.
    let plan = gimbal.plan_send(true, true, &still_command());
    assert!(plan.is_empty());
    assert_eq!(gimbal.seq, 0);
}

#[test]
fn ptr_send_writes_one_frame_and_advances_seq() {
    let mut gimbal = ronin::create("cam1", &plain_config("MyRonin"));
    gimbal.seq = 7;
    let cmd = Command { pan: 500, tilt: -250, roll: 0, zoom: 0, focus: 0, autofocus: false };
    let plan = gimbal.plan_send(true, true, &cmd);
    assert_eq!(plan.len(), 1);
    match &plan[0] {
        RoninAction::WritePtr(frame) => {
            assert_eq!(frame.len(), 22);
            assert_eq!(
                hex::encode(&frame[..20]),
                "551604fc02040700400401f00300044004000002"
            );
        }
        other => panic!("expected a PTR write, got {:?}", other),
    }
    assert_eq!(gimbal.seq, 8);
}

#[test]
fn dropped_link_triggers_full_recovery_before_the_write() {
    let mut gimbal = ronin::create("cam1", &plain_config("MyRonin"));
    let cmd = Command { pan: 100, tilt: 0, roll: 0, zoom: 0, focus: 0, autofocus: false };
    let plan = gimbal.plan_send(true, false, &cmd);
    assert_eq!(plan.len(), 5);
    assert_eq!(plan[0], RoninAction::ForceDisconnect);
    assert_eq!(plan[1], RoninAction::Reconnect);
    assert_eq!(plan[2], RoninAction::RediscoverCharacteristic);
    assert_eq!(plan[3], RoninAction::Resubscribe);
    assert!(matches!(plan[4], RoninAction::WritePtr(_)));
    assert_eq!(gimbal.seq, 1);
}

#[test]
fn zoom_speed_changes_are_published_once() {
    let mut gimbal = ronin::create("cam1", &plain_config("MyRonin"));
    let cmd = Command { pan: 0, tilt: 0, roll: 0, zoom: 500, focus: 0, autofocus: false };
    let plan = gimbal.plan_send(true, true, &cmd);
    assert_eq!(plan.len(), 1);
    assert_eq!(plan[0], RoninAction::PublishZoomSpeed(500));
    assert_eq!(gimbal.zoom_speed, 500);

    // The same speed again changes nothing, but the zoom task is no longer
    // at rest, so the command is not idle either: the plan is just empty.
    let plan = gimbal.plan_send(true, true, &cmd);
    assert!(plan.is_empty());

    // Back to zero publishes the stop.
    let plan = gimbal.plan_send(true, true, &still_command());
    assert_eq!(plan.len(), 1);
    assert_eq!(plan[0], RoninAction::PublishZoomSpeed(0));
    assert_eq!(gimbal.zoom_speed, 0);
}

#[test]
fn reversal_options_flip_axis_signs() {
    let config = RoninConfig {
        name: "R".to_string(),
        capabilities: None,
        options: Some(vec![GimbalOption::ReversePan]),
    };
    let mut gimbal = ronin::create("cam1", &config);
    let cmd = Command { pan: 500, tilt: 0, roll: 0, zoom: 0, focus: 0, autofocus: false };
    let plan = gimbal.plan_send(true, true, &cmd);
    match &plan[0] {
        RoninAction::WritePtr(frame) => {
            // pan scaled from -500: -64, encoded as 1024 - 64 = 960 = 0x03c0.
            assert_eq!(&frame[15..17], &[0xc0, 0x03]);
        }
        other => panic!("expected a PTR write, got {:?}", other),
    }
}

#[test]
fn zoom_increment_is_clamped_and_signed() {
    assert_eq!(zoom_increment(0), 0);
    assert_eq!(zoom_increment(1000), 1000);
    assert_eq!(zoom_increment(-1000), -1000);
    assert_eq!(zoom_increment(100), 3);
    assert_eq!(zoom_increment(-100), -3);
    assert_eq!(zoom_increment(500), 175);
    for v in [-1000i16, -700, -1, 1, 2, 350, 999, 1000] {
        let inc = zoom_increment(v);
        assert!(3 <= inc.abs() && inc.abs() <= 1000);
        assert_eq!(inc.is_positive(), v > 0);
    }
}

#[test]
fn isqrt_brackets_its_argument() {
    assert_eq!(isqrt(0), 0);
    assert_eq!(isqrt(1), 1);
    assert_eq!(isqrt(9999), 99);
    assert_eq!(isqrt(10000), 100);
    assert_eq!(isqrt(1000000), 1000);
}

#[test]
fn zoom_target_advances_only_on_movement() {
    // Burst start restarts from the reported level.
    assert_eq!(next_zoom_target(true, 500, 2000, 100, false), (2100, true));
    // A moving gimbal keeps advancing the target.
    assert_eq!(next_zoom_target(false, 2100, 2000, 100, true), (2200, true));
    // A stalled gimbal holds the target.
    assert_eq!(next_zoom_target(false, 2100, 2000, 100, false), (2100, true));
    // The target clamps to the counter range.
    assert_eq!(next_zoom_target(true, 0, 4050, 100, false), (4095, false));
    assert_eq!(next_zoom_target(true, 0, 30, -100, false), (0, false));
    // Near the far stop, motion toward it is suppressed.
    assert_eq!(next_zoom_target(true, 0, 3980, 100, false), (4080, false));
    // Motion away from the stop is not.
    assert_eq!(next_zoom_target(true, 0, 4090, -100, false), (3990, true));
}

#[test]
fn zoom_packet_layout_matches_protocol() {
    let frame = create_zoom_packet(7, 0x0234);
    assert_eq!(frame.len(), 18);
    assert_eq!(hex::encode(&frame[..16]), "551204c702df070000042f0100023402");
}

#[test]
fn status_frames_report_the_zoom_level() {
    let mut frame = vec![0x55, 0x1c, 0x04, 0x1b, 0xdf, 0x02];
    frame.extend_from_slice(&[0u8; 8]);
    frame.extend_from_slice(&[0x34, 0x12]);
    assert_eq!(decode_status_frame(&frame), Some(0x1234));

    assert_eq!(decode_status_frame(&frame[..15]), None);
    let mut other = frame.clone();
    other[1] = 0x1d;
    assert_eq!(decode_status_frame(&other), None);
}

#[test]
fn inc_seq_wraps_at_the_top() {
    let mut gimbal = ronin::create("cam1", &plain_config("MyRonin"));
    gimbal.seq = 0xfffe;
    gimbal.inc_seq();
    assert_eq!(gimbal.seq, 0xffff);
    gimbal.inc_seq();
    assert_eq!(gimbal.seq, 0);
}
