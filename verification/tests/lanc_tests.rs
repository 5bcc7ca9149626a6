use camctl::device::Command;
use camctl::lanc::{self, focus_code, pick_command, plan_send, zoom_code};

fn command(zoom: i16, focus: i16, autofocus: bool) -> Command {
    Command { pan: 0, tilt: 0, roll: 0, zoom, focus, autofocus }
}

#[test]
fn lanc_zoom_mid_rate_pair() {
    let pair = plan_send(&command(450, 0, false)).expect("zoom moves");
    assert_eq!(&pair.0, b"2806\n");
    assert_eq!(&pair.1, b"2806\n");
}

#[test]
fn lanc_autofocus_overrides_focus() {
    let pair = plan_send(&command(0, 900, true)).expect("autofocus sends");
    assert_eq!(&pair.0, b"2843\n");
    assert_eq!(&pair.1, b"2843\n");
}

#[test]
fn lanc_zoom_and_focus_share_the_pair() {
    let pair = plan_send(&command(-250, 300, false)).expect("both axes move");
    assert_eq!(&pair.0, b"2812\n");
    assert_eq!(&pair.1, b"28E3\n");
}

#[test]
fn lanc_zoom_with_autofocus_keeps_the_zoom() {
    let pair = plan_send(&command(850, 0, true)).expect("zoom and autofocus");
    assert_eq!(&pair.0, b"280E\n");
    assert_eq!(&pair.1, b"2843\n");
}

#[test]
fn lanc_still_command_sends_nothing() {
    assert!(plan_send(&command(0, 0, false)).is_none());
}

#[test]
fn lanc_zoom_rate_thresholds() {
    assert_eq!(&zoom_code(100), b"2800\n");
    assert_eq!(&zoom_code(200), b"2802\n");
    assert_eq!(&zoom_code(799), b"280C\n");
    assert_eq!(&zoom_code(800), b"280E\n");
    assert_eq!(&zoom_code(-100), b"2810\n");
    assert_eq!(&zoom_code(-1000), b"281E\n");
}

#[test]
fn lanc_focus_rate_thresholds() {
    assert_eq!(&focus_code(100), b"28E1\n");
    assert_eq!(&focus_code(350), b"28E5\n");
    assert_eq!(&focus_code(800), b"28EB\n");
    assert_eq!(&focus_code(-199), b"28F1\n");
    assert_eq!(&focus_code(-650), b"28F9\n");
}

#[test]
fn lanc_driver_state_and_alternation() {
    let bridge = lanc::create("cam3", "/dev/ttyUSB0");
    assert_eq!(bridge.id, "cam3");
    assert_eq!(bridge.port, "/dev/ttyUSB0");
    let pair = bridge.plan_send(&command(450, 200, false)).expect("both axes move");
    assert_eq!(pick_command(&pair, 0), *b"2806\n");
    assert_eq!(pick_command(&pair, 1), *b"28E3\n");
    assert_eq!(pick_command(&pair, 2), *b"2806\n");
}
