//! Configuration model: groups, per-device settings, controller mappings,
//! and the load-time validation rules.

use vstd::prelude::*;

verus! {

/// One thing a driver can do with a command. A driver skips any part of a
/// command whose capability it lacks.
#[derive(Clone, Copy, Debug, PartialEq, Eq, Structural)]
pub enum Capability {
    Ptr,
    Zoom,
    Focus,
    Autofocus,
}

/// A device's capability set, one flag per capability.
#[derive(Clone, Copy, Debug, PartialEq, Eq, Structural)]
pub struct CapabilitySet {
    pub ptr: bool,
    pub zoom: bool,
    pub focus: bool,
    pub autofocus: bool,
}

/// The set holding exactly the capabilities a list names.
pub open spec fn spec_capability_set(list: Seq<Capability>) -> CapabilitySet {
    CapabilitySet {
        ptr: list.contains(Capability::Ptr),
        zoom: list.contains(Capability::Zoom),
        focus: list.contains(Capability::Focus),
        autofocus: list.contains(Capability::Autofocus),
    }
}

/// The capability set a config entry yields: everything when the entry
/// omits the list, else exactly what the list names.
pub open spec fn spec_configured_caps(caps: Option<Vec<Capability>>) -> CapabilitySet {
    match caps {
        None => CapabilitySet { ptr: true, zoom: true, focus: true, autofocus: true },
        Some(list) => spec_capability_set(list@),
    }
}

/// The full capability set, the default when config lists none.
pub fn all_capabilities() -> (r: CapabilitySet)
    ensures
        r == (CapabilitySet { ptr: true, zoom: true, focus: true, autofocus: true }),
{
    CapabilitySet { ptr: true, zoom: true, focus: true, autofocus: true }
}

impl CapabilitySet {
    /// The set holding exactly the capabilities that `caps` lists.
    pub fn from_list(caps: &Vec<Capability>) -> (r: CapabilitySet)
        ensures
            r == spec_capability_set(caps@),
    {
        let mut r = CapabilitySet { ptr: false, zoom: false, focus: false, autofocus: false };
        let mut i: usize = 0;
        while i < caps.len()
            invariant
                i <= caps.len(),
                r.ptr == exists|m: int| 0 <= m < i && caps@[m] == Capability::Ptr,
                r.zoom == exists|m: int| 0 <= m < i && caps@[m] == Capability::Zoom,
                r.focus == exists|m: int| 0 <= m < i && caps@[m] == Capability::Focus,
                r.autofocus == exists|m: int| 0 <= m < i && caps@[m] == Capability::Autofocus,
            decreases caps.len() - i,
        {
            match caps[i] {
                Capability::Ptr => {
                    r.ptr = true;
                },
                Capability::Zoom => {
                    r.zoom = true;
                },
                Capability::Focus => {
                    r.focus = true;
                },
                Capability::Autofocus => {
                    r.autofocus = true;
                },
            }
            i = i + 1;
        }
        r
    }

    /// The configured set: the listed capabilities, or everything when the
    /// config omits the list.
    pub fn from_config(caps: &Option<Vec<Capability>>) -> (r: CapabilitySet)
        ensures
            r == spec_configured_caps(*caps),
    {
        match caps {
            None => all_capabilities(),
            Some(list) => CapabilitySet::from_list(list),
        }
    }
}

/// A named ordered set of device ids, for the operator interface. Groups do
/// not constrain dispatch.
#[derive(Clone, Debug)]
pub struct Group {
    pub name: String,
    pub devices: Vec<String>,
}

/// A sign reversal a gimbal can be configured with, one per rotation axis.
#[derive(Clone, Copy, Debug, PartialEq, Eq, Structural)]
pub enum GimbalOption {
    ReversePan,
    ReverseTilt,
    ReverseRoll,
}

/// Settings of a dummy device.
#[derive(Clone, Debug)]
pub struct DummyConfig {
    pub name: String,
    pub capabilities: Option<Vec<Capability>>,
}

/// Settings of a Ronin gimbal: the advertised local name to scan for, and
/// optional axis reversals.
#[derive(Clone, Debug)]
pub struct RoninConfig {
    pub name: String,
    pub capabilities: Option<Vec<Capability>>,
    pub options: Option<Vec<GimbalOption>>,
}

/// Settings of a crane-style gimbal: the advertised local name to scan
/// for, and optional axis reversals. No device table entry constructs one;
/// the type exists for hosts that wire the alternate protocol in directly.
#[derive(Clone, Debug)]
pub struct CraneConfig {
    pub name: String,
    pub capabilities: Option<Vec<Capability>>,
    pub options: Option<Vec<GimbalOption>>,
}

/// Settings of a Lumix camera: its network address and an optional
/// access password.
#[derive(Clone, Debug)]
pub struct LumixConfig {
    pub address: String,
    pub password: Option<String>,
    pub capabilities: Option<Vec<Capability>>,
}

/// Settings of a LANC bridge: the serial device path.
#[derive(Clone, Debug)]
pub struct LancConfig {
    pub port: String,
    pub capabilities: Option<Vec<Capability>>,
}

/// Per-device settings, tagged by driver kind.
#[derive(Clone, Debug)]
pub enum DeviceConfig {
    Dummy(DummyConfig),
    Ronin(RoninConfig),
    Lumix(LumixConfig),
    Lanc(LancConfig),
}

/// One controller input feeding an axis. The multiplier is in thousandths.
#[derive(Clone, Debug)]
pub struct PadInput {
    pub pad_index: usize,
    pub input_type: String,
    pub input_index: usize,
    pub multiplier: i32,
}

/// True when the slot holds no inputs: absent, or present but empty.
pub open spec fn spec_empty_or_none(val: Option<Vec<PadInput>>) -> bool {
    match val {
        None => true,
        Some(v) => v@.len() == 0,
    }
}

/// Tests whether a mapping slot holds no inputs.
pub fn empty_or_none(val: &Option<Vec<PadInput>>) -> (r: bool)
    ensures
        r == spec_empty_or_none(*val),
{
    match val {
        None => true,
        Some(v) => v.len() == 0,
    }
}

/// One pad's worth of input mappings: an optional input list per direction
/// of each axis. The core stores these for its clients and only ever asks
/// whether a bundle is empty.
#[derive(Clone, Debug)]
pub struct Mappings {
    pub pan_l: Option<Vec<PadInput>>,
    pub pan_r: Option<Vec<PadInput>>,
    pub tilt_u: Option<Vec<PadInput>>,
    pub tilt_d: Option<Vec<PadInput>>,
    pub roll_l: Option<Vec<PadInput>>,
    pub roll_r: Option<Vec<PadInput>>,
    pub zoom_i: Option<Vec<PadInput>>,
    pub zoom_o: Option<Vec<PadInput>>,
    pub focus_f: Option<Vec<PadInput>>,
    pub focus_n: Option<Vec<PadInput>>,
    pub focus_a: Option<Vec<PadInput>>,
}

impl Mappings {
    /// True when every sub-list is absent or empty.
    pub open spec fn spec_is_empty(self) -> bool {
        &&& spec_empty_or_none(self.pan_l)
        &&& spec_empty_or_none(self.pan_r)
        &&& spec_empty_or_none(self.tilt_u)
        &&& spec_empty_or_none(self.tilt_d)
        &&& spec_empty_or_none(self.roll_l)
        &&& spec_empty_or_none(self.roll_r)
        &&& spec_empty_or_none(self.zoom_i)
        &&& spec_empty_or_none(self.zoom_o)
        &&& spec_empty_or_none(self.focus_f)
        &&& spec_empty_or_none(self.focus_n)
        &&& spec_empty_or_none(self.focus_a)
    }

    /// Tests whether the bundle holds no inputs at all: true exactly when
    /// every sub-list is absent or empty.
    pub fn is_empty(&self) -> (r: bool)
        ensures
            r == self.spec_is_empty(),
    {
        empty_or_none(&self.pan_l) && empty_or_none(&self.pan_r) && empty_or_none(&self.tilt_u)
            && empty_or_none(&self.tilt_d) && empty_or_none(&self.roll_l) && empty_or_none(
            &self.roll_r,
        ) && empty_or_none(&self.zoom_i) && empty_or_none(&self.zoom_o) && empty_or_none(
            &self.focus_f,
        ) && empty_or_none(&self.focus_n) && empty_or_none(&self.focus_a)
    }

    /// A bundle with every slot absent.
    pub fn empty() -> (r: Mappings)
        ensures
            r.spec_is_empty(),
            r.pan_l is None && r.pan_r is None && r.tilt_u is None && r.tilt_d is None,
            r.roll_l is None && r.roll_r is None && r.zoom_i is None && r.zoom_o is None,
            r.focus_f is None && r.focus_n is None && r.focus_a is None,
    {
        Mappings {
            pan_l: None,
            pan_r: None,
            tilt_u: None,
            tilt_d: None,
            roll_l: None,
            roll_r: None,
            zoom_i: None,
            zoom_o: None,
            focus_f: None,
            focus_n: None,
            focus_a: None,
        }
    }
}

/// The whole configuration: groups, the ordered id-to-device mapping,
/// optional saved controller mappings, and the port the front end serves on.
#[derive(Clone, Debug)]
pub struct Config {
    pub groups: Vec<Group>,
    pub devices: Vec<(String, DeviceConfig)>,
    pub default_controls: Option<Vec<Mappings>>,
    pub port: u16,
}

/// Why a configuration was rejected.
#[derive(Clone, Copy, Debug, PartialEq, Eq, Structural)]
pub enum ConfigError {
    /// Two groups share a name.
    DuplicateGroupNames,
    /// A group names a device id that the device table does not define.
    UndefinedDevices,
}

/// Two distinct groups share a name.
pub open spec fn has_duplicate_group_names(groups: Seq<Group>) -> bool {
    exists|i: int, j: int| 0 <= i < j < groups.len() && groups[i].name@ == groups[j].name@
}

/// The device table defines `id`.
pub open spec fn device_defined(devices: Seq<(String, DeviceConfig)>, id: Seq<char>) -> bool {
    exists|k: int| 0 <= k < devices.len() && devices[k].0@ == id
}

/// Every id any group names is defined in the device table.
pub open spec fn all_group_devices_defined(config: Config) -> bool {
    forall|i: int, j: int|
        0 <= i < config.groups@.len() && 0 <= j < config.groups@[i].devices@.len()
            ==> device_defined(config.devices@, config.groups@[i].devices@[j]@)
}

/// Rejects a configuration in which two groups share a name.
pub fn check_duplicate_group_names(config: &Config) -> (r: Result<(), ConfigError>)
    ensures
        r is Ok <==> !has_duplicate_group_names(config.groups@),
        r is Err ==> r == Result::<(), ConfigError>::Err(ConfigError::DuplicateGroupNames),
{
    let groups = &config.groups;
    let mut i: usize = 0;
    while i < groups.len()
        invariant
            i <= groups.len(),
            groups@ == config.groups@,
            forall|p: int, q: int| 0 <= p < q < i ==> groups@[p].name@ != groups@[q].name@,
        decreases groups.len() - i,
    {
        let mut j: usize = 0;
        while j < i
            invariant
                j <= i < groups.len(),
                groups@ == config.groups@,
                forall|p: int, q: int| 0 <= p < q < i ==> groups@[p].name@ != groups@[q].name@,
                forall|q: int| 0 <= q < j ==> groups@[q].name@ != groups@[i as int].name@,
            decreases i - j,
        {
            if groups[j].name == groups[i].name {
                assert(has_duplicate_group_names(config.groups@)) by {
                    assert(0 <= j < i < config.groups@.len() && config.groups@[j as int].name@
                        == config.groups@[i as int].name@);
                }
                return Err(ConfigError::DuplicateGroupNames);
            }
            j = j + 1;
        }
        i = i + 1;
    }
    Ok(())
}

/// Rejects a configuration in which a group names an undefined device id.
pub fn detect_undefined_devices(config: &Config) -> (r: Result<(), ConfigError>)
    ensures
        r is Ok <==> all_group_devices_defined(*config),
        r is Err ==> r == Result::<(), ConfigError>::Err(ConfigError::UndefinedDevices),
{
    let groups = &config.groups;
    let mut i: usize = 0;
    while i < groups.len()
        invariant
            i <= groups.len(),
            groups@ == config.groups@,
            forall|p: int, j: int|
                0 <= p < i && 0 <= j < groups@[p].devices@.len() ==> device_defined(
                    config.devices@,
                    groups@[p].devices@[j]@,
                ),
        decreases groups.len() - i,
    {
        let ids = &groups[i].devices;
        let mut j: usize = 0;
        while j < ids.len()
            invariant
                j <= ids.len(),
                i < groups.len(),
                groups@ == config.groups@,
                ids@ == groups@[i as int].devices@,
                forall|p: int, q: int|
                    0 <= p < i && 0 <= q < groups@[p].devices@.len() ==> device_defined(
                        config.devices@,
                        groups@[p].devices@[q]@,
                    ),
                forall|q: int|
                    0 <= q < j ==> device_defined(config.devices@, groups@[i as int].devices@[q]@),
            decreases ids.len() - j,
        {
            let id = &ids[j];
            let mut k: usize = 0;
            let mut found = false;
            while k < config.devices.len()
                invariant
                    k <= config.devices.len(),
                    id@ == groups@[i as int].devices@[j as int]@,
                    found ==> device_defined(config.devices@, id@),
                    !found ==> forall|m: int| 0 <= m < k ==> config.devices@[m].0@ != id@,
                decreases config.devices.len() - k,
            {
                if config.devices[k].0 == *id {
                    found = true;
                }
                k = k + 1;
            }
            if !found {
                assert(!all_group_devices_defined(*config)) by {
                    assert(0 <= i < config.groups@.len() && 0 <= j
                        < config.groups@[i as int].devices@.len() && !device_defined(
                        config.devices@,
                        config.groups@[i as int].devices@[j as int]@,
                    ));
                }
                return Err(ConfigError::UndefinedDevices);
            }
            j = j + 1;
        }
        i = i + 1;
    }
    Ok(())
}

/// The load-time validation: a configuration is accepted exactly when no
/// two groups share a name and every id any group names is defined.
pub fn validate_config(config: &Config) -> (r: Result<(), ConfigError>)
    ensures
        r is Ok <==> !has_duplicate_group_names(config.groups@) && all_group_devices_defined(
            *config,
        ),
        has_duplicate_group_names(config.groups@) ==> r == Result::<(), ConfigError>::Err(
            ConfigError::DuplicateGroupNames,
        ),
        !has_duplicate_group_names(config.groups@) && !all_group_devices_defined(*config) ==> r
            == Result::<(), ConfigError>::Err(ConfigError::UndefinedDevices),
{
    check_duplicate_group_names(config)?;
    detect_undefined_devices(config)?;
    Ok(())
}

} // verus!
