use camctl::config::{Capability, CraneConfig, GimbalOption};
use camctl::crane::{
    self, create_pan_packet, create_roll_packet, create_tilt_packet, get_seq, scale_ptr_value,
    CraneAction,
};
use camctl::device::Command;

fn plain_config(name: &str) -> CraneConfig {
    CraneConfig { name: name.to_string(), capabilities: None, options: None }
}

#[test]
fn crane_scale_is_cubic_with_a_floor() {
    assert_eq!(scale_ptr_value(0), 0);
    assert_eq!(scale_ptr_value(1000), 2047);
    assert_eq!(scale_ptr_value(-1000), -2047);
    // Tiny deflections still move at the minimum rate.
    assert_eq!(scale_ptr_value(10), 2);
    assert_eq!(scale_ptr_value(-10), -2);
    // Half deflection: 0.125 * 2048 = 256.
    assert_eq!(scale_ptr_value(500), 256);
}

#[test]
fn crane_axis_packet_matches_recorded_frame() {
    // A tilt-at-rest frame recorded from the device, sequence byte 0x28.
    let frame = create_tilt_packet(0x28, 0);
    assert_eq!(hex::encode(&frame), "243c080018122801011000083252");
}

#[test]
fn crane_axis_selectors_differ() {
    let tilt = create_tilt_packet(1, 0);
    let roll = create_roll_packet(1, 0);
    let pan = create_pan_packet(1, 0);
    assert_eq!(tilt[8], 0x01);
    assert_eq!(roll[8], 0x02);
    assert_eq!(pan[8], 0x03);
}

#[test]
fn crane_seq_counter_fetches_then_advances() {
    let mut next: u8 = 0xfe;
    assert_eq!(get_seq(&mut next), 0xfe);
    assert_eq!(get_seq(&mut next), 0xff);
    assert_eq!(get_seq(&mut next), 0x00);
    assert_eq!(next, 1);
}

#[test]
fn crane_send_plans_three_packets_in_axis_order() {
    let mut gimbal = crane::create("cam4", &plain_config("MyCrane"));
    let cmd = Command { pan: 500, tilt: -500, roll: 0, zoom: 0, focus: 0, autofocus: false };
    let plan = gimbal.plan_send(true, true, &cmd);
    assert_eq!(plan.len(), 3);
    for (i, action) in plan.iter().enumerate() {
        match action {
            CraneAction::WritePacket(frame) => {
                assert_eq!(frame.len(), 14);
                assert_eq!(frame[6], i as u8);
            }
            other => panic!("expected a packet write, got {:?}", other),
        }
    }
    assert_eq!(gimbal.next_seq, 3);
}

#[test]
fn crane_recovers_a_dropped_link_before_writing() {
    let mut gimbal = crane::create("cam4", &plain_config("MyCrane"));
    let cmd = Command { pan: 100, tilt: 0, roll: 0, zoom: 0, focus: 0, autofocus: false };
    let plan = gimbal.plan_send(true, false, &cmd);
    assert_eq!(plan.len(), 6);
    assert_eq!(plan[0], CraneAction::ForceDisconnect);
    assert_eq!(plan[1], CraneAction::Reconnect);
    assert_eq!(plan[2], CraneAction::RediscoverCharacteristic);
    assert!(matches!(plan[3], CraneAction::WritePacket(_)));
}

#[test]
fn crane_without_ptr_capability_stays_silent() {
    let config = CraneConfig {
        name: "MyCrane".to_string(),
        capabilities: Some(vec![Capability::Zoom]),
        options: None,
    };
    let mut gimbal = crane::create("cam4", &config);
    let cmd = Command { pan: 500, tilt: 0, roll: 0, zoom: 0, focus: 0, autofocus: false };
    assert!(gimbal.plan_send(true, true, &cmd).is_empty());
    assert_eq!(gimbal.next_seq, 0);
}

#[test]
fn crane_reversal_options_flip_signs() {
    let config = CraneConfig {
        name: "MyCrane".to_string(),
        capabilities: None,
        options: Some(vec![GimbalOption::ReverseTilt]),
    };
    let mut gimbal = crane::create("cam4", &config);
    let cmd = Command { pan: 0, tilt: 500, roll: 0, zoom: 0, focus: 0, autofocus: false };
    let plan = gimbal.plan_send(true, true, &cmd);
    match &plan[0] {
        CraneAction::WritePacket(frame) => {
            // tilt scaled from -500: -256, encoded as 2048 - 256 = 1792 = 0x0700.
            assert_eq!(&frame[10..12], &[0x00, 0x07]);
        }
        other => panic!("expected a packet write, got {:?}", other),
    }
}
