use camctl::config::{
    all_capabilities, check_duplicate_group_names, detect_undefined_devices, validate_config,
    Capability, CapabilitySet, Config, ConfigError, DeviceConfig, DummyConfig, Group, Mappings,
    PadInput,
};

fn dummy_device(name: &str) -> DeviceConfig {
    DeviceConfig::Dummy(DummyConfig { name: name.to_string(), capabilities: None })
}

#[test]
fn test_check_duplicate_group_names() {
    let config = Config {
        groups: vec![
            Group { name: "group1".to_string(), devices: vec![] },
            Group { name: "group2".to_string(), devices: vec![] },
            Group { name: "group1".to_string(), devices: vec![] },
        ],
        devices: vec![],
        default_controls: None,
        port: 0,
    };
    assert!(check_duplicate_group_names(&config).is_err());
}

#[test]
fn test_detect_undefined_devices() {
    let config = Config {
        groups: vec![
            Group { name: "group1".to_string(), devices: vec!["device1".to_string()] },
            Group { name: "group2".to_string(), devices: vec!["device2".to_string()] },
        ],
        devices: vec![
            ("device1".to_string(), dummy_device("dummy")),
            ("device3".to_string(), dummy_device("dummy")),
        ],
        default_controls: None,
        port: 0,
    };
    assert!(detect_undefined_devices(&config).is_err());
}

#[test]
fn validate_accepts_well_formed_config() {
    let config = Config {
        groups: vec![
            Group { name: "main".to_string(), devices: vec!["cam1".to_string()] },
            Group { name: "aux".to_string(), devices: vec!["cam1".to_string(), "cam2".to_string()] },
        ],
        devices: vec![
            ("cam1".to_string(), dummy_device("first")),
            ("cam2".to_string(), dummy_device("second")),
        ],
        default_controls: None,
        port: 8000,
    };
    assert!(check_duplicate_group_names(&config).is_ok());
    assert!(detect_undefined_devices(&config).is_ok());
    assert!(validate_config(&config).is_ok());
}

#[test]
fn validate_reports_duplicates_before_undefined() {
    let config = Config {
        groups: vec![
            Group { name: "g".to_string(), devices: vec!["missing".to_string()] },
            Group { name: "g".to_string(), devices: vec![] },
        ],
        devices: vec![],
        default_controls: None,
        port: 0,
    };
    assert_eq!(validate_config(&config), Err(ConfigError::DuplicateGroupNames));
}

#[test]
fn validate_reports_undefined_devices() {
    let config = Config {
        groups: vec![Group { name: "g".to_string(), devices: vec!["missing".to_string()] }],
        devices: vec![("present".to_string(), dummy_device("d"))],
        default_controls: None,
        port: 0,
    };
    assert_eq!(validate_config(&config), Err(ConfigError::UndefinedDevices));
}

#[test]
fn mappings_empty_and_nonempty() {
    let empty = Mappings::empty();
    assert!(empty.is_empty());

    let mut with_input = Mappings::empty();
    with_input.zoom_i = Some(vec![PadInput {
        pad_index: 0,
        input_type: "button".to_string(),
        input_index: 3,
        multiplier: 1000,
    }]);
    assert!(!with_input.is_empty());

    let mut with_empty_list = Mappings::empty();
    with_empty_list.pan_l = Some(vec![]);
    assert!(with_empty_list.is_empty());
}

#[test]
fn capability_sets_follow_config() {
    let all = all_capabilities();
    assert_eq!(
        all,
        CapabilitySet { ptr: true, zoom: true, focus: true, autofocus: true }
    );
    let from_none = CapabilitySet::from_config(&None);
    assert_eq!(from_none, all);
    let from_list = CapabilitySet::from_config(&Some(vec![Capability::Zoom, Capability::Focus]));
    assert_eq!(
        from_list,
        CapabilitySet { ptr: false, zoom: true, focus: true, autofocus: false }
    );
}
