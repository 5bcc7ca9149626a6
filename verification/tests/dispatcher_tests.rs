use camctl::config::{Group, Mappings, PadInput};
use camctl::device::Command;
use camctl::dispatcher::{
    bytes_eq, bytes_le, clear_state, device_selected, insert_id_sorted, trim_default_controls,
    used_device_ids, CommandRequest, DeviceStatus, Operation, State,
};
use camctl::dummy;

fn nonempty_mappings() -> Mappings {
    let mut m = Mappings::empty();
    m.focus_a = Some(vec![PadInput {
        pad_index: 1,
        input_type: "axis".to_string(),
        input_index: 2,
        multiplier: -1000,
    }]);
    m
}

#[test]
fn selection_matches_listed_ids() {
    let wanted = vec!["cam1".to_string(), "cam3".to_string()];
    assert!(device_selected(&wanted, &"cam1".to_string()));
    assert!(device_selected(&wanted, &"cam3".to_string()));
    assert!(!device_selected(&wanted, &"cam2".to_string()));
    assert!(!device_selected(&vec![], &"cam1".to_string()));
}

#[test]
fn trailing_empty_mappings_are_trimmed() {
    let list = vec![Mappings::empty(), nonempty_mappings(), Mappings::empty(), Mappings::empty()];
    let trimmed = trim_default_controls(list).expect("one bundle is non-empty");
    assert_eq!(trimmed.len(), 2);
    assert!(trimmed[0].is_empty());
    assert!(!trimmed[1].is_empty());
}

#[test]
fn all_empty_mappings_store_nothing() {
    assert!(trim_default_controls(vec![]).is_none());
    assert!(trim_default_controls(vec![Mappings::empty(), Mappings::empty()]).is_none());
}

#[test]
fn trimming_is_idempotent_on_concrete_lists() {
    let list = vec![nonempty_mappings(), Mappings::empty()];
    let once = trim_default_controls(list).expect("non-empty head");
    let twice = trim_default_controls(once.clone()).expect("still non-empty");
    assert_eq!(once.len(), twice.len());
    assert_eq!(once.len(), 1);
}

#[test]
fn shutdown_clears_groups_and_devices() {
    let mut state = State {
        instance: "instance-1".to_string(),
        groups: vec![Group { name: "g".to_string(), devices: vec!["cam1".to_string()] }],
        devices: vec![DeviceStatus {
            id: "cam1".to_string(),
            name: "Cam".to_string(),
            connected: true,
        }],
        default_controls: None,
    };
    clear_state(&mut state);
    assert!(state.groups.is_empty());
    assert!(state.devices.is_empty());
    assert_eq!(state.instance, "instance-1");
}

#[test]
fn operations_carry_their_requests() {
    let op = Operation::Command(CommandRequest {
        devices: vec!["cam1".to_string()],
        command: Command { pan: 10, tilt: 0, roll: 0, zoom: 0, focus: 0, autofocus: false },
    });
    match op {
        Operation::Command(req) => {
            assert_eq!(req.devices, vec!["cam1".to_string()]);
            assert_eq!(req.command.pan, 10);
        }
        _ => panic!("constructed a command operation"),
    }
}

#[test]
fn dummy_device_lifecycle() {
    let mut device = dummy::create_with_id_and_name("cam9", "Spare");
    assert!(!device.is_connected());
    device.connect();
    assert!(device.is_connected());
    device.disconnect();
    assert!(!device.is_connected());
    device.reconnect();
    assert!(device.is_connected());
    assert_eq!(device.id(), "cam9");
    assert_eq!(device.name, "Spare");
    device.send_command(&Command { pan: 0, tilt: 0, roll: 0, zoom: 0, focus: 0, autofocus: false });
}

#[test]
fn byte_order_primitives() {
    assert!(bytes_le(b"", b"a"));
    assert!(bytes_le(b"abc", b"abd"));
    assert!(bytes_le(b"ab", b"abc"));
    assert!(!bytes_le(b"abd", b"abc"));
    assert!(bytes_le(b"same", b"same"));
    assert!(bytes_eq(b"same", b"same"));
    assert!(!bytes_eq(b"same", b"sane"));
}

#[test]
fn roster_insert_keeps_order_and_uniqueness() {
    let mut roster: Vec<String> = vec![];
    insert_id_sorted(&mut roster, &"cam2".to_string());
    insert_id_sorted(&mut roster, &"cam1".to_string());
    insert_id_sorted(&mut roster, &"cam3".to_string());
    insert_id_sorted(&mut roster, &"cam2".to_string());
    assert_eq!(roster, vec!["cam1", "cam2", "cam3"]);
}

#[test]
fn used_device_ids_are_sorted_and_unique() {
    let groups = vec![
        Group { name: "a".to_string(), devices: vec!["zoom-rig".to_string(), "cam1".to_string()] },
        Group { name: "b".to_string(), devices: vec!["cam1".to_string(), "bench".to_string()] },
        Group { name: "c".to_string(), devices: vec![] },
    ];
    let ids = used_device_ids(&groups);
    assert_eq!(ids, vec!["bench", "cam1", "zoom-rig"]);
}

#[test]
fn fresh_dummy_ids_are_uuid_shaped() {
    let device = dummy::create();
    assert_eq!(device.id.len(), 36);
    assert!(device.name.is_empty());
    assert!(!device.is_connected());
    let other = dummy::create();
    assert_ne!(device.id, other.id);
}
