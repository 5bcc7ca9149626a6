use camctl::config::{Capability, LumixConfig};
use camctl::device::Command;
use camctl::lumix::{
    self, focus_adjust_speed, acc_response_ok, encode_str, init_command_packet, init_event_packet, initial_session,
    parse_friendly_name, CommandPacket, FocusAdjustDataPacket, FocusAdjustSpeed,
    ZoomDirection, ZoomSpeed, ZoomStartDataPacket, ZoomStopDataPacket,
};

fn plain_config(address: &str) -> LumixConfig {
    LumixConfig { address: address.to_string(), password: None, capabilities: None }
}

fn zoom_command(zoom: i16) -> Command {
    Command { pan: 0, tilt: 0, roll: 0, zoom, focus: 0, autofocus: false }
}

#[test]
fn test_encode_str() {
    let as_bytes = encode_str("LUMIXTether");
    assert_eq!(
        hex::encode(as_bytes),
        "4c0055004d00490058005400650074006800650072000000"
    );
}

#[test]
fn encode_str_of_empty_is_just_the_nul() {
    assert_eq!(encode_str(""), vec![0x00, 0x00]);
}

#[test]
fn command_packets_serialise_little_endian() {
    let open = CommandPacket::open_session(0);
    assert_eq!(
        hex::encode(open.to_bytes()),
        "2600000006000000010000000210000000000100010000000000000000000000000000000000"
    );
    let af = CommandPacket::one_shot_af(9);
    assert_eq!(
        hex::encode(af.to_bytes()),
        "2600000006000000010000000594090000002400000300000000000000000000000000000000"
    );
}

#[test]
fn zoom_data_packets_carry_direction_and_speed() {
    let start = ZoomStartDataPacket::create(5, 0x03000081, ZoomDirection::Tele, ZoomSpeed::High);
    let bytes = start.to_bytes();
    assert_eq!(bytes.len(), 44);
    assert_eq!(
        hex::encode(&bytes),
        "1400000009000000050000000c00000000000000180000000c00000005000000810000030400000001000200"
    );
}

#[test]
fn zoom_stop_and_focus_data_packets_serialise() {
    let stop = ZoomStopDataPacket::create(3, 0x03000082);
    assert_eq!(stop.to_bytes().len(), 40);
    let focus = FocusAdjustDataPacket::create(4, 0x03010011, FocusAdjustSpeed::NearFast);
    let bytes = focus.to_bytes();
    assert_eq!(bytes.len(), 42);
    assert_eq!(&bytes[40..], &[0x04, 0x00]);
}

#[test]
fn focus_speed_thresholds() {
    assert_eq!(focus_adjust_speed(-900), FocusAdjustSpeed::NearFast);
    assert_eq!(focus_adjust_speed(-750), FocusAdjustSpeed::NearSlow);
    assert_eq!(focus_adjust_speed(-1), FocusAdjustSpeed::NearSlow);
    assert_eq!(focus_adjust_speed(0), FocusAdjustSpeed::Stop);
    assert_eq!(focus_adjust_speed(1), FocusAdjustSpeed::FarSlow);
    assert_eq!(focus_adjust_speed(750), FocusAdjustSpeed::FarSlow);
    assert_eq!(focus_adjust_speed(900), FocusAdjustSpeed::FarFast);
}

#[test]
fn zoom_escalation_sends_start_once_then_stop() {
    let mut camera = lumix::create("cam2", &plain_config("192.168.1.5"));
    camera.session = Some(initial_session());

    // Wide/Off, zoom hard in: one start_zoom with dir tele, speed high.
    let exchanges = camera.plan_send(&zoom_command(900));
    assert_eq!(exchanges.len(), 1);
    let cmd_hex = hex::encode(&exchanges[0].command);
    // opcode 0x9416, transaction 1, param1 0x03000081.
    assert_eq!(
        cmd_hex,
        "2600000006000000020000001694010000008100000300000000000000000000000000000000"
    );
    let data = exchanges[0].data.as_ref().expect("start_zoom carries data");
    // Direction tele (1) and speed high (2) close the data packet.
    assert_eq!(&data[40..], &[0x01, 0x00, 0x02, 0x00]);

    // The same zoom again changes nothing.
    let exchanges = camera.plan_send(&zoom_command(900));
    assert!(exchanges.is_empty());

    // Back to rest: one stop_zoom, and the recorded speed returns to off.
    let exchanges = camera.plan_send(&zoom_command(0));
    assert_eq!(exchanges.len(), 1);
    let cmd_hex = hex::encode(&exchanges[0].command);
    assert_eq!(
        cmd_hex,
        "2600000006000000020000001694020000008200000300000000000000000000000000000000"
    );
    let session = camera.session.unwrap();
    assert_eq!(session.curr_speed, ZoomSpeed::Off);
    assert_eq!(session.curr_dir, ZoomDirection::Tele);
    assert_eq!(session.transaction_id, 3);
}

#[test]
fn low_zoom_reversal_stops_then_starts() {
    let mut camera = lumix::create("cam2", &plain_config("192.168.1.5"));
    camera.session = Some(initial_session());
    assert_eq!(camera.plan_send(&zoom_command(400)).len(), 1);
    // Reversing direction at speed low: stop the old motion, start the new.
    let exchanges = camera.plan_send(&zoom_command(-400));
    assert_eq!(exchanges.len(), 2);
    let session = camera.session.unwrap();
    assert_eq!(session.curr_dir, ZoomDirection::Wide);
    assert_eq!(session.curr_speed, ZoomSpeed::Low);
    assert_eq!(session.transaction_id, 4);
}

#[test]
fn autofocus_trigger_preempts_other_axes() {
    let mut camera = lumix::create("cam2", &plain_config("192.168.1.5"));
    camera.session = Some(initial_session());
    let cmd = Command { pan: 0, tilt: 0, roll: 0, zoom: 900, focus: 900, autofocus: true };
    let exchanges = camera.plan_send(&cmd);
    assert_eq!(exchanges.len(), 1);
    // opcode 0x9405: the one-shot autofocus, and nothing else.
    assert_eq!(&exchanges[0].command[12..14], &[0x05, 0x94]);
    assert!(exchanges[0].data.is_none());
}

#[test]
fn capability_gating_skips_axes() {
    let config = LumixConfig {
        address: "192.168.1.5".to_string(),
        password: None,
        capabilities: Some(vec![Capability::Focus]),
    };
    let mut camera = lumix::create("cam2", &config);
    camera.session = Some(initial_session());
    let cmd = Command { pan: 0, tilt: 0, roll: 0, zoom: 900, focus: 900, autofocus: true };
    // No autofocus or zoom capability: only the focus adjustment goes out.
    let exchanges = camera.plan_send(&cmd);
    assert_eq!(exchanges.len(), 1);
    assert_eq!(&exchanges[0].command[12..14], &[0x16, 0x94]);
    assert!(exchanges[0].data.is_some());
}

#[test]
fn disconnected_camera_plans_nothing() {
    let mut camera = lumix::create("cam2", &plain_config("192.168.1.5"));
    let cmd = Command { pan: 0, tilt: 0, roll: 0, zoom: 900, focus: 0, autofocus: true };
    assert!(camera.plan_send(&cmd).is_empty());
    assert!(!camera.is_connected());
}

#[test]
fn friendly_name_extraction() {
    let body =
        b"<?xml version=\"1.0\"?><root><device><friendlyName>LUMIX GH5</friendlyName></device></root>";
    assert_eq!(parse_friendly_name(body), Some(b"LUMIX GH5".to_vec()));
    assert_eq!(parse_friendly_name(b"<root></root>"), None);
    assert_eq!(parse_friendly_name(b"<friendlyName>unterminated"), None);
}

#[test]
fn access_response_check() {
    assert!(acc_response_ok(b"ok_d=on<result>ok</result>rest"));
    assert!(!acc_response_ok(b"<result>err_denied</result>"));
    assert!(!acc_response_ok(b""));
}

#[test]
fn init_packets_match_protocol() {
    assert_eq!(
        hex::encode(init_command_packet()),
        "3400000001000000ffffffffffffffffffffffffffffffff4c0055004d0049005800540065007400680065007200000000000100"
    );
    assert_eq!(hex::encode(init_event_packet()), "0c0000000300000001000000");
}
