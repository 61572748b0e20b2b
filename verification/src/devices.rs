//! The table of tracked devices: the headset at index 0, the left and right
//! controllers at indices 1 and 2, and generic trackers behind them.
//!
//! Each device carries its connection state, the interaction profile that
//! its properties are read from, and one cached pose per tracking origin.

use crate::error::InputError;
use crate::events::EventQueue;
use crate::events::EventType;
use crate::events::InputEvent;
use crate::profiles::MainAxisType;
use crate::profiles::Profile;
use crate::runtime::Hand;
use crate::strings::contains;
use crate::strings::contains_seq;
use crate::strings::lowercase_of;
use crate::strings::to_lowercase;
use vstd::prelude::*;
use vstd::string::StringExecFns;

verus! {

/// The largest number of devices the table holds.
pub const MAX_TRACKED_DEVICE_COUNT: u32 = 64;

/// The number of devices that are always in the table.
pub const FIXED_DEVICE_COUNT: u32 = 3;

/// The index that stands for no device.
pub const INVALID_DEVICE_INDEX: u32 = 0xffff_ffff;

/// The index of the headset.
pub const HMD_INDEX: u32 = 0;

/// The origin that poses are reported against.
#[derive(Clone, Copy, Debug, PartialEq, Eq, Structural)]
pub enum TrackingUniverseOrigin {
    Seated,
    Standing,
    RawAndUncalibrated,
}

/// How well a device is tracked.
#[derive(Clone, Copy, Debug, PartialEq, Eq, Structural)]
pub enum TrackingResult {
    Uninitialized,
    RunningOk,
    RunningOutOfRange,
}

/// The class of a device.
#[derive(Clone, Copy, Debug, PartialEq, Eq, Structural)]
pub enum TrackedDeviceClass {
    Invalid,
    Hmd,
    Controller,
    GenericTracker,
}

/// The role of a controller.
#[derive(Clone, Copy, Debug, PartialEq, Eq, Structural)]
pub enum ControllerRole {
    Invalid,
    LeftHand,
    RightHand,
}

/// The kind of an axis of a controller.
#[derive(Clone, Copy, Debug, PartialEq, Eq, Structural)]
pub enum ControllerAxisType {
    Absent,
    TrackPad,
    Joystick,
    Trigger,
}

impl ControllerAxisType {
    /// The number by which the host knows the kind of axis.
    pub open spec fn code(self) -> i32 {
        match self {
            ControllerAxisType::Absent => 0,
            ControllerAxisType::TrackPad => 1,
            ControllerAxisType::Joystick => 2,
            ControllerAxisType::Trigger => 3,
        }
    }

    /// Reads the number by which the host knows the kind of axis.
    pub fn number(self) -> (r: i32)
        ensures
            r == self.code(),
    {
        match self {
            ControllerAxisType::Absent => 0,
            ControllerAxisType::TrackPad => 1,
            ControllerAxisType::Joystick => 2,
            ControllerAxisType::Trigger => 3,
        }
    }
}

/// How active a device is.
#[derive(Clone, Copy, Debug, PartialEq, Eq, Structural)]
pub enum DeviceActivityLevel {
    Unknown,
    UserInteraction,
}

/// The properties of a device that the table answers for.
#[derive(Clone, Copy, Debug, PartialEq, Eq, Structural)]
pub enum TrackedDeviceProperty {
    TrackingSystemName,
    ModelNumber,
    SerialNumber,
    RenderModelName,
    ManufacturerName,
    RegisteredDeviceType,
    ControllerType,
    SupportedButtons,
    Axis0Type,
    Axis1Type,
    Axis2Type,
    Axis3Type,
    Axis4Type,
    /// Any property that is not modelled.
    Other,
}

/// Why a property could not be read.
#[derive(Clone, Copy, Debug, PartialEq, Eq, Structural)]
pub enum TrackedPropertyError {
    BufferTooSmall,
    UnknownProperty,
    InvalidDevice,
}

/// The pose of a device. The matrix, row by row with the translation in the
/// fourth column, and the two velocities are carried as the bit patterns of
/// the single-precision numbers that the host receives.
#[derive(Clone, Copy, Debug, PartialEq, Eq)]
pub struct TrackedDevicePose {
    pub device_to_absolute_tracking: [u32; 12],
    pub velocity: [u32; 3],
    pub angular_velocity: [u32; 3],
    pub tracking_result: TrackingResult,
    pub pose_is_valid: bool,
    pub device_is_connected: bool,
}

/// The bit of the location flags that says the orientation is valid.
pub const ORIENTATION_VALID: u64 = 0x1;

/// The bit of the location flags that says the position is valid.
pub const POSITION_VALID: u64 = 0x2;

impl TrackedDevicePose {
    /// True when the matrix and both velocities hold nothing but zeros.
    pub open spec fn zeroed(self) -> bool {
        &&& forall|i: int| 0 <= i < 12 ==> self.device_to_absolute_tracking@[i] == 0
        &&& forall|i: int| 0 <= i < 3 ==> self.velocity@[i] == 0
        &&& forall|i: int| 0 <= i < 3 ==> self.angular_velocity@[i] == 0
    }

    /// True of the pose reported when nothing is known of a device.
    pub open spec fn is_empty(self) -> bool {
        &&& self.zeroed()
        &&& self.tracking_result == TrackingResult::Uninitialized
        &&& !self.pose_is_valid
        &&& !self.device_is_connected
    }

    /// True when the runtime located both position and orientation.
    pub open spec fn located(location_flags: u64) -> bool {
        location_flags & (ORIENTATION_VALID | POSITION_VALID) == (ORIENTATION_VALID
            | POSITION_VALID)
    }

    /// Makes the pose reported when nothing is known of a device.
    pub fn new() -> (r: TrackedDevicePose)
        ensures
            r.is_empty(),
    {
        TrackedDevicePose {
            device_to_absolute_tracking: [0u32; 12],
            velocity: [0u32; 3],
            angular_velocity: [0u32; 3],
            tracking_result: TrackingResult::Uninitialized,
            pose_is_valid: false,
            device_is_connected: false,
        }
    }

    /// Makes a pose from what the runtime located. With position and
    /// orientation both valid the pose is valid, connected and running;
    /// otherwise it is the invalid pose of a device out of range, with the
    /// matrix and the velocities zeroed.
    pub fn from_location(
        location_flags: u64,
        matrix: [u32; 12],
        velocity: [u32; 3],
        angular_velocity: [u32; 3],
    ) -> (r: TrackedDevicePose)
        ensures
            Self::located(location_flags) ==> r == (TrackedDevicePose {
                device_to_absolute_tracking: matrix,
                velocity,
                angular_velocity,
                tracking_result: TrackingResult::RunningOk,
                pose_is_valid: true,
                device_is_connected: true,
            }),
            !Self::located(location_flags) ==> r.zeroed() && r.tracking_result
                == TrackingResult::RunningOutOfRange && !r.pose_is_valid && !r.device_is_connected,
    {
        if location_flags & (ORIENTATION_VALID | POSITION_VALID) == (ORIENTATION_VALID
            | POSITION_VALID) {
            TrackedDevicePose {
                device_to_absolute_tracking: matrix,
                velocity,
                angular_velocity,
                tracking_result: TrackingResult::RunningOk,
                pose_is_valid: true,
                device_is_connected: true,
            }
        } else {
            TrackedDevicePose {
                device_to_absolute_tracking: [0u32; 12],
                velocity: [0u32; 3],
                angular_velocity: [0u32; 3],
                tracking_result: TrackingResult::RunningOutOfRange,
                pose_is_valid: false,
                device_is_connected: false,
            }
        }
    }
}

/// What kind of device an entry of the table is.
#[derive(Clone, Debug, PartialEq, Eq)]
pub enum TrackedDeviceType {
    Hmd,
    Controller { hand: Hand },
    GenericTracker { serial: String },
}

impl TrackedDeviceType {
    /// The class that the host sees.
    pub open spec fn class(self) -> TrackedDeviceClass {
        match self {
            TrackedDeviceType::Hmd => TrackedDeviceClass::Hmd,
            TrackedDeviceType::Controller { .. } => TrackedDeviceClass::Controller,
            TrackedDeviceType::GenericTracker { .. } => TrackedDeviceClass::GenericTracker,
        }
    }

    /// The hand of a controller.
    pub open spec fn hand(self) -> Option<Hand> {
        match self {
            TrackedDeviceType::Controller { hand } => Some(hand),
            _ => None,
        }
    }
}

/// One device of the table.
pub struct TrackedDevice {
    pub device_type: TrackedDeviceType,
    pub interaction_profile: Option<Profile>,
    pub profile_path: u64,
    pub connected: bool,
    pub previous_connected: bool,
    pub seated_pose: Option<TrackedDevicePose>,
    pub standing_pose: Option<TrackedDevicePose>,
}

/// The space of the runtime in which a device is located.
#[derive(Clone, Copy, Debug, PartialEq, Eq)]
pub enum DeviceSpace {
    /// The view space.
    View,
    /// The grip space of a hand, moved to the position of its aim space.
    Raw(Hand),
    /// The space of the tracker at this index of the table.
    Tracker(u32),
}

/// The answer to a pose read: the cached pose, or the space to locate.
#[derive(Clone, Copy, Debug, PartialEq, Eq)]
pub enum PoseLookup {
    Cached(TrackedDevicePose),
    Locate(DeviceSpace),
}

impl TrackedDevice {
    /// A device without profile and without cached poses. Only a headset
    /// starts out connected.
    pub fn new(
        device_type: TrackedDeviceType,
        profile_path: Option<u64>,
        interaction_profile: Option<Profile>,
    ) -> (r: TrackedDevice)
        ensures
            r.device_type == device_type,
            r.interaction_profile == interaction_profile,
            r.profile_path == (match profile_path {
                Some(p) => p,
                None => 0,
            }),
            r.connected == (device_type is Hmd),
            !r.previous_connected,
            r.seated_pose.is_none(),
            r.standing_pose.is_none(),
    {
        let connected = match &device_type {
            TrackedDeviceType::Hmd => true,
            _ => false,
        };
        TrackedDevice {
            device_type,
            interaction_profile,
            profile_path: match profile_path {
                Some(p) => p,
                None => 0,
            },
            connected,
            previous_connected: false,
            seated_pose: None,
            standing_pose: None,
        }
    }

    /// The cached pose for `origin`. Poses against the raw origin share the
    /// slot of the standing origin.
    pub open spec fn cached(&self, origin: TrackingUniverseOrigin) -> Option<TrackedDevicePose> {
        match origin {
            TrackingUniverseOrigin::Seated => self.seated_pose,
            _ => self.standing_pose,
        }
    }

    /// Reads the cached pose for `origin`.
    pub fn cached_pose(&self, origin: TrackingUniverseOrigin) -> (r: Option<TrackedDevicePose>)
        ensures
            r == self.cached(origin),
    {
        match origin {
            TrackingUniverseOrigin::Seated => self.seated_pose,
            _ => self.standing_pose,
        }
    }

    /// The device once a read has located `pose` for `origin`: the pose is
    /// cached unless a pose was cached for that origin already.
    pub open spec fn with_pose(self, origin: TrackingUniverseOrigin, pose: TrackedDevicePose)
        -> TrackedDevice {
        match origin {
            TrackingUniverseOrigin::Seated => TrackedDevice {
                seated_pose: match self.seated_pose {
                    Some(p) => Some(p),
                    None => Some(pose),
                },
                ..self
            },
            _ => TrackedDevice {
                standing_pose: match self.standing_pose {
                    Some(p) => Some(p),
                    None => Some(pose),
                },
                ..self
            },
        }
    }

    /// The device at the start of a frame: no pose is cached.
    pub open spec fn without_poses(self) -> TrackedDevice {
        TrackedDevice { seated_pose: None, standing_pose: None, ..self }
    }

    /// Stores `pose` for `origin` unless a pose is cached there already,
    /// and returns the pose that is cached afterwards.
    pub fn store_pose(&mut self, origin: TrackingUniverseOrigin, pose: TrackedDevicePose) -> (r:
        TrackedDevicePose)
        ensures
            *final(self) == old(self).with_pose(origin, pose),
            final(self).cached(origin) == Some(r),
    {
        match origin {
            TrackingUniverseOrigin::Seated => {
                match self.seated_pose {
                    Some(p) => p,
                    None => {
                        self.seated_pose = Some(pose);
                        pose
                    },
                }
            },
            _ => {
                match self.standing_pose {
                    Some(p) => p,
                    None => {
                        self.standing_pose = Some(pose);
                        pose
                    },
                }
            },
        }
    }

    /// Forgets the cached poses.
    pub fn clear_pose_cache(&mut self)
        ensures
            *final(self) == old(self).without_poses(),
    {
        self.seated_pose = None;
        self.standing_pose = None;
    }

    /// Tells whether the connection state differs from the one seen at the
    /// last call, and remembers the current one.
    pub fn has_connected_changed(&mut self) -> (r: bool)
        ensures
            r == (old(self).previous_connected != old(self).connected),
            final(self).previous_connected == old(self).connected,
            final(self).connected == old(self).connected,
            final(self).device_type == old(self).device_type,
            final(self).interaction_profile == old(self).interaction_profile,
            final(self).profile_path == old(self).profile_path,
            final(self).seated_pose == old(self).seated_pose,
            final(self).standing_pose == old(self).standing_pose,
    {
        if self.previous_connected != self.connected {
            self.previous_connected = self.connected;
            true
        } else {
            false
        }
    }

    /// The kind of the device.
    pub fn get_type(&self) -> (r: &TrackedDeviceType)
        ensures
            *r == self.device_type,
    {
        &self.device_type
    }

    /// The hand of a controller, `None` for any other device.
    pub fn get_controller_hand(&self) -> (r: Option<Hand>)
        ensures
            r == self.device_type.hand(),
    {
        match &self.device_type {
            TrackedDeviceType::Controller { hand } => Some(*hand),
            _ => None,
        }
    }

    /// The class that the host sees.
    pub fn get_class(&self) -> (r: TrackedDeviceClass)
        ensures
            r == self.device_type.class(),
    {
        match &self.device_type {
            TrackedDeviceType::Hmd => TrackedDeviceClass::Hmd,
            TrackedDeviceType::Controller { .. } => TrackedDeviceClass::Controller,
            TrackedDeviceType::GenericTracker { .. } => TrackedDeviceClass::GenericTracker,
        }
    }

    /// The hand whose value a per-hand property takes: that of a
    /// controller, and the left one for any other device.
    pub open spec fn property_hand(&self) -> Hand {
        match self.device_type {
            TrackedDeviceType::Controller { hand } => hand,
            _ => Hand::Left,
        }
    }

    /// The characters of a string property, `None` where the device has no
    /// profile or the property is not modelled. A tracker reports its own
    /// serial number, and a headset none.
    pub open spec fn string_property(&self, property: TrackedDeviceProperty) -> Option<Seq<char>> {
        match self.interaction_profile {
            None => None,
            Some(profile) => {
                let data = profile.device_properties();
                let hand = self.property_hand();
                match property {
                    TrackedDeviceProperty::ControllerType => Some(data.openvr_controller_type@),
                    TrackedDeviceProperty::ModelNumber => Some(data.model.of(hand)@),
                    TrackedDeviceProperty::RenderModelName => Some(data.render_model_name.of(hand)@),
                    TrackedDeviceProperty::RegisteredDeviceType => Some(
                        data.registered_device_type.of(hand)@,
                    ),
                    TrackedDeviceProperty::TrackingSystemName => Some(data.tracking_system_name@),
                    TrackedDeviceProperty::SerialNumber => match self.device_type {
                        TrackedDeviceType::Controller { .. } => Some(data.serial_number.of(hand)@),
                        TrackedDeviceType::GenericTracker { serial } => Some(serial@),
                        TrackedDeviceType::Hmd => None,
                    },
                    TrackedDeviceProperty::ManufacturerName => Some(data.manufacturer_name@),
                    _ => None,
                }
            },
        }
    }

    /// Reads a string property.
    pub fn get_string_property(&self, property: TrackedDeviceProperty) -> (r: Option<String>)
        ensures
            r.is_some() == self.string_property(property).is_some(),
            r.is_some() ==> r.unwrap()@ == self.string_property(property).unwrap(),
    {
        let hand = match &self.device_type {
            TrackedDeviceType::Controller { hand } => *hand,
            _ => Hand::Left,
        };
        let profile = match self.interaction_profile {
            Some(p) => p,
            None => {
                return None;
            },
        };
        let data = profile.properties();
        match property {
            TrackedDeviceProperty::ControllerType => Some(
                String::from_str(data.openvr_controller_type),
            ),
            TrackedDeviceProperty::ModelNumber => Some(String::from_str(data.model.get(hand))),
            TrackedDeviceProperty::RenderModelName => Some(
                String::from_str(data.render_model_name.get(hand)),
            ),
            TrackedDeviceProperty::RegisteredDeviceType => Some(
                String::from_str(data.registered_device_type.get(hand)),
            ),
            TrackedDeviceProperty::TrackingSystemName => Some(
                String::from_str(data.tracking_system_name),
            ),
            TrackedDeviceProperty::SerialNumber => match &self.device_type {
                TrackedDeviceType::Controller { .. } => Some(
                    String::from_str(data.serial_number.get(hand)),
                ),
                TrackedDeviceType::GenericTracker { serial } => Some(serial.clone()),
                TrackedDeviceType::Hmd => None,
            },
            TrackedDeviceProperty::ManufacturerName => Some(
                String::from_str(data.manufacturer_name),
            ),
            _ => None,
        }
    }

    /// The value of a 32-bit property: the kinds of the axes of a
    /// controller that has a profile. Axis 0 is the main stick or pad, axes
    /// 1 and 2 are the trigger and the grip, axes 3 and 4 are not used.
    pub open spec fn int_property(&self, property: TrackedDeviceProperty) -> Option<i32> {
        if self.device_type is Controller && self.interaction_profile.is_some() {
            match property {
                TrackedDeviceProperty::Axis0Type => Some(
                    match self.interaction_profile.unwrap().device_properties().main_axis {
                        MainAxisType::Thumbstick => ControllerAxisType::Joystick.code(),
                        MainAxisType::Trackpad => ControllerAxisType::TrackPad.code(),
                    },
                ),
                TrackedDeviceProperty::Axis1Type => Some(ControllerAxisType::Trigger.code()),
                TrackedDeviceProperty::Axis2Type => Some(ControllerAxisType::Trigger.code()),
                TrackedDeviceProperty::Axis3Type => Some(ControllerAxisType::Absent.code()),
                TrackedDeviceProperty::Axis4Type => Some(ControllerAxisType::Absent.code()),
                _ => None,
            }
        } else {
            None
        }
    }

    /// Reads a 32-bit property.
    pub fn get_int_property(&self, property: TrackedDeviceProperty) -> (r: Option<i32>)
        ensures
            r == self.int_property(property),
    {
        match &self.device_type {
            TrackedDeviceType::Controller { .. } => {
                let profile = match self.interaction_profile {
                    Some(p) => p,
                    None => {
                        return None;
                    },
                };
                let data = profile.properties();
                match property {
                    TrackedDeviceProperty::Axis0Type => match data.main_axis {
                        MainAxisType::Thumbstick => Some(ControllerAxisType::Joystick.number()),
                        MainAxisType::Trackpad => Some(ControllerAxisType::TrackPad.number()),
                    },
                    TrackedDeviceProperty::Axis1Type => Some(ControllerAxisType::Trigger.number()),
                    TrackedDeviceProperty::Axis2Type => Some(ControllerAxisType::Trigger.number()),
                    TrackedDeviceProperty::Axis3Type | TrackedDeviceProperty::Axis4Type => Some(
                        ControllerAxisType::Absent.number(),
                    ),
                    _ => None,
                }
            },
            _ => None,
        }
    }

    /// The value of a 64-bit property: the legacy button mask of a
    /// controller that has a profile.
    pub open spec fn uint_property(&self, property: TrackedDeviceProperty) -> Option<u64> {
        if self.device_type is Controller && self.interaction_profile.is_some() && property
            == TrackedDeviceProperty::SupportedButtons {
            Some(self.interaction_profile.unwrap().device_properties().legacy_buttons_mask)
        } else {
            None
        }
    }

    /// Reads a 64-bit property.
    pub fn get_uint_property(&self, property: TrackedDeviceProperty) -> (r: Option<u64>)
        ensures
            r == self.uint_property(property),
    {
        match &self.device_type {
            TrackedDeviceType::Controller { .. } => {
                let profile = match self.interaction_profile {
                    Some(p) => p,
                    None => {
                        return None;
                    },
                };
                match property {
                    TrackedDeviceProperty::SupportedButtons => Some(
                        profile.properties().legacy_buttons_mask,
                    ),
                    _ => None,
                }
            },
            _ => None,
        }
    }
}

/// A device that the runtime offers beyond headset and controllers.
pub struct XDev {
    pub name: String,
    pub serial: String,
    pub can_create_space: bool,
}

/// True when a device of the runtime becomes a generic tracker: a space can
/// be created for it, and its name, in lowercase, holds "tracker".
pub open spec fn is_tracker(xdev: XDev) -> bool {
    xdev.can_create_space && contains_seq(lowercase_of(xdev.name@), "tracker"@)
}

/// The positions in `xdevs`, from `first` on, of the first `room` devices
/// that become generic trackers.
pub open spec fn tracker_picks(xdevs: Seq<XDev>, first: int, room: int) -> Seq<int>
    decreases xdevs.len() - first,
{
    if first < 0 || first >= xdevs.len() || room <= 0 {
        Seq::empty()
    } else if is_tracker(xdevs[first]) {
        seq![first] + tracker_picks(xdevs, first + 1, room - 1)
    } else {
        tracker_picks(xdevs, first + 1, room)
    }
}

/// The table of tracked devices.
pub struct TrackedDeviceList {
    devices: Vec<TrackedDevice>,
}

impl View for TrackedDeviceList {
    type V = Seq<TrackedDevice>;

    closed spec fn view(&self) -> Seq<TrackedDevice> {
        self.devices@
    }
}

/// The index of the controller of a hand.
pub open spec fn controller_index(hand: Hand) -> int {
    match hand {
        Hand::Left => 1,
        Hand::Right => 2,
    }
}

/// The table of devices at the start of a session: the headset, which is
/// connected, and the controllers of the left and the right hand, which
/// are not; no device has a profile or a cached pose.
pub open spec fn fresh_table() -> Seq<TrackedDevice> {
    seq![
        TrackedDevice {
            device_type: TrackedDeviceType::Hmd,
            interaction_profile: None,
            profile_path: 0,
            connected: true,
            previous_connected: false,
            seated_pose: None,
            standing_pose: None,
        },
        TrackedDevice {
            device_type: TrackedDeviceType::Controller { hand: Hand::Left },
            interaction_profile: None,
            profile_path: 0,
            connected: false,
            previous_connected: false,
            seated_pose: None,
            standing_pose: None,
        },
        TrackedDevice {
            device_type: TrackedDeviceType::Controller { hand: Hand::Right },
            interaction_profile: None,
            profile_path: 0,
            connected: false,
            previous_connected: false,
            seated_pose: None,
            standing_pose: None,
        },
    ]
}

/// A table of devices once the runtime has reported `profile` for
/// `hand`: the controller of the hand has the profile and its path, and is
/// connected exactly if there is a profile, which is also the connection
/// that was seen last; no device has a cached pose; all else is as it was.
pub open spec fn profile_set(
    table: Seq<TrackedDevice>,
    hand: Hand,
    profile_path: u64,
    profile: Option<Profile>,
) -> Seq<TrackedDevice> {
    Seq::new(
        table.len(),
        |i: int|
            if i == controller_index(hand) {
                TrackedDevice {
                    interaction_profile: profile,
                    profile_path,
                    connected: profile.is_some(),
                    previous_connected: profile.is_some(),
                    seated_pose: None,
                    standing_pose: None,
                    ..table[i]
                }
            } else {
                table[i].without_poses()
            },
    )
}

/// True when a table of devices is in order: the headset is at index 0,
/// the controllers of the left and the right hand are at 1 and 2, every
/// further device is a generic tracker, and the table is not over its
/// capacity.
pub open spec fn table_in_order(table: Seq<TrackedDevice>) -> bool {
    &&& FIXED_DEVICE_COUNT <= table.len() <= MAX_TRACKED_DEVICE_COUNT
    &&& table[0].device_type is Hmd
    &&& table[1].device_type == (TrackedDeviceType::Controller { hand: Hand::Left })
    &&& table[2].device_type == (TrackedDeviceType::Controller { hand: Hand::Right })
    &&& forall|i: int|
        FIXED_DEVICE_COUNT <= i < table.len() ==> (#[trigger] table[i]).device_type
            is GenericTracker
}

impl TrackedDeviceList {
    /// The headset is at index 0, the controllers are at 1 and 2, every
    /// further device is a generic tracker, and the table is not over its
    /// capacity.
    pub open spec fn wf(&self) -> bool {
        table_in_order(self@)
    }

    /// A table with the headset and two controllers that are not connected.
    pub fn new() -> (r: TrackedDeviceList)
        ensures
            r.wf(),
            r@ == fresh_table(),
            r@.len() == FIXED_DEVICE_COUNT,
            r@[0].connected,
            !r@[1].connected,
            !r@[2].connected,
            forall|i: int|
                0 <= i < 3 ==> (#[trigger] r@[i]).interaction_profile.is_none()
                    && r@[i].seated_pose.is_none()
                    && r@[i].standing_pose.is_none() && !r@[i].previous_connected,
    {
        let mut devices: Vec<TrackedDevice> = Vec::new();
        devices.push(TrackedDevice::new(TrackedDeviceType::Hmd, None, None));
        devices.push(
            TrackedDevice::new(TrackedDeviceType::Controller { hand: Hand::Left }, None, None),
        );
        devices.push(
            TrackedDevice::new(TrackedDeviceType::Controller { hand: Hand::Right }, None, None),
        );
        assert(devices@ =~= fresh_table());
        TrackedDeviceList { devices }
    }

    /// The number of devices in the table.
    pub fn len(&self) -> (n: usize)
        ensures
            n == self@.len(),
    {
        self.devices.len()
    }

    /// The device at `device_index`, if there is one.
    pub fn get_device(&self, device_index: u32) -> (r: Option<&TrackedDevice>)
        ensures
            r.is_some() == (device_index < self@.len()),
            r.is_some() ==> *r.unwrap() == self@[device_index as int],
    {
        if (device_index as usize) < self.devices.len() {
            Some(&self.devices[device_index as usize])
        } else {
            None
        }
    }

    /// Appends a tracker and returns its index. A full table is left as it
    /// is.
    pub fn push_device(&mut self, device: TrackedDevice) -> (r: Result<u32, InputError>)
        requires
            old(self).wf(),
            device.device_type is GenericTracker,
        ensures
            final(self).wf(),
            old(self)@.len() >= MAX_TRACKED_DEVICE_COUNT ==> r == Err::<u32, InputError>(
                InputError::MaxCapacityReached,
            ) && final(self)@ == old(self)@,
            old(self)@.len() < MAX_TRACKED_DEVICE_COUNT ==> r == Ok::<u32, InputError>(
                old(self)@.len() as u32,
            ) && final(self)@ == old(self)@.push(device),
    {
        let index: usize = self.devices.len();
        if index >= MAX_TRACKED_DEVICE_COUNT as usize {
            return Err(InputError::MaxCapacityReached);
        }
        self.devices.push(device);
        Ok(index as u32)
    }

    /// The headset.
    pub fn get_hmd(&self) -> (r: &TrackedDevice)
        requires
            self.wf(),
        ensures
            *r == self@[0],
    {
        &self.devices[0]
    }

    /// The controller of `hand`.
    pub fn get_controller(&self, hand: Hand) -> (r: &TrackedDevice)
        requires
            self.wf(),
        ensures
            *r == self@[controller_index(hand)],
    {
        match hand {
            Hand::Left => &self.devices[1],
            Hand::Right => &self.devices[2],
        }
    }

    /// The index of the controller of `hand` while it is connected.
    pub fn get_controller_index(&self, hand: Hand) -> (r: Option<u32>)
        requires
            self.wf(),
        ensures
            r == (if self@[controller_index(hand)].connected {
                Some(controller_index(hand) as u32)
            } else {
                None
            }),
    {
        match hand {
            Hand::Left => if self.devices[1].connected {
                Some(1)
            } else {
                None
            },
            Hand::Right => if self.devices[2].connected {
                Some(2)
            } else {
                None
            },
        }
    }

    /// Forgets every cached pose.
    pub fn clear_pose_cache(&mut self)
        requires
            old(self).wf(),
        ensures
            final(self).wf(),
            final(self)@.len() == old(self)@.len(),
            forall|i: int|
                0 <= i < final(self)@.len() ==> {
                    let d = #[trigger] final(self)@[i];
                    let o = old(self)@[i];
                    &&& d.seated_pose.is_none()
                    &&& d.standing_pose.is_none()
                    &&& d.device_type == o.device_type
                    &&& d.interaction_profile == o.interaction_profile
                    &&& d.profile_path == o.profile_path
                    &&& d.connected == o.connected
                    &&& d.previous_connected == o.previous_connected
                },
    {
        let n: usize = self.devices.len();
        let mut i: usize = 0;
        while i < n
            invariant
                n == self.devices.len(),
                n == old(self)@.len(),
                i <= n,
                forall|j: int|
                    0 <= j < i ==> (#[trigger] self.devices@[j]).seated_pose.is_none()
                        && self.devices@[j].standing_pose.is_none(),
                forall|j: int|
                    0 <= j < n ==> {
                        let d = #[trigger] self.devices@[j];
                        let o = old(self)@[j];
                        &&& d.device_type == o.device_type
                        &&& d.interaction_profile == o.interaction_profile
                        &&& d.profile_path == o.profile_path
                        &&& d.connected == o.connected
                        &&& d.previous_connected == o.previous_connected
                    },
            decreases n - i,
        {
            self.devices[i].seated_pose = None;
            self.devices[i].standing_pose = None;
            i += 1;
        }
    }

    /// The space in which the device at `index` is located.
    pub open spec fn space_of(&self, index: int) -> DeviceSpace {
        match self@[index].device_type {
            TrackedDeviceType::Hmd => DeviceSpace::View,
            TrackedDeviceType::Controller { hand } => DeviceSpace::Raw(hand),
            TrackedDeviceType::GenericTracker { .. } => DeviceSpace::Tracker(index as u32),
        }
    }

    /// What a pose read of the device at `index` finds: nothing where there
    /// is no device, the pose cached for `origin` if there is one, and else
    /// the space that has to be located.
    pub open spec fn lookup(&self, index: u32, origin: TrackingUniverseOrigin) -> Option<
        PoseLookup,
    > {
        if index >= self@.len() {
            None
        } else {
            match self@[index as int].cached(origin) {
                Some(p) => Some(PoseLookup::Cached(p)),
                None => Some(PoseLookup::Locate(self.space_of(index as int))),
            }
        }
    }

    /// Reads the pose of the device at `index` from the cache, or tells
    /// which space to locate.
    pub fn pose_lookup(&self, index: u32, origin: TrackingUniverseOrigin) -> (r: Option<
        PoseLookup,
    >)
        ensures
            r == self.lookup(index, origin),
    {
        if (index as usize) >= self.devices.len() {
            return None;
        }
        let device = &self.devices[index as usize];
        match device.cached_pose(origin) {
            Some(p) => Some(PoseLookup::Cached(p)),
            None => Some(
                PoseLookup::Locate(
                    match &device.device_type {
                        TrackedDeviceType::Hmd => DeviceSpace::View,
                        TrackedDeviceType::Controller { hand } => DeviceSpace::Raw(*hand),
                        TrackedDeviceType::GenericTracker { .. } => DeviceSpace::Tracker(index),
                    },
                ),
            ),
        }
    }

    /// Caches `pose` for the device at `index` unless a pose is cached for
    /// `origin` already, and returns the pose that reads find from now on.
    pub fn fill_pose(&mut self, index: u32, origin: TrackingUniverseOrigin, pose: TrackedDevicePose)
        -> (r: Option<TrackedDevicePose>)
        requires
            old(self).wf(),
        ensures
            final(self).wf(),
            final(self)@.len() == old(self)@.len(),
            index >= old(self)@.len() ==> r.is_none() && final(self)@ == old(self)@,
            index < old(self)@.len() ==> r == Some(
                match old(self)@[index as int].cached(origin) {
                    Some(p) => p,
                    None => pose,
                },
            ) && final(self).lookup(index, origin) == Some(PoseLookup::Cached(r.unwrap()))
                && final(self)@[index as int] == old(self)@[index as int].with_pose(origin, pose),
            forall|i: int|
                0 <= i < old(self)@.len() && i != index ==> final(self)@[i] == old(self)@[i],
            forall|i: int|
                0 <= i < old(self)@.len() ==> {
                    let d = #[trigger] final(self)@[i];
                    let o = old(self)@[i];
                    &&& d.device_type == o.device_type
                    &&& d.interaction_profile == o.interaction_profile
                    &&& d.profile_path == o.profile_path
                    &&& d.connected == o.connected
                    &&& d.previous_connected == o.previous_connected
                },
    {
        if (index as usize) >= self.devices.len() {
            return None;
        }
        let stored = self.devices[index as usize].store_pose(origin, pose);
        Some(stored)
    }

    /// Records the interaction profile that the runtime reports for a hand.
    /// A controller is connected exactly while it has a profile. A change
    /// of the connection appends an event for the controller, and every
    /// cached pose is dropped.
    pub fn set_interaction_profile(
        &mut self,
        hand: Hand,
        profile_path: u64,
        profile: Option<Profile>,
        events: &mut EventQueue,
    )
        requires
            old(self).wf(),
        ensures
            final(self).wf(),
            final(self)@.len() == old(self)@.len(),
            final(self)@ == profile_set(old(self)@, hand, profile_path, profile),
            ({
                let i = controller_index(hand);
                let d = final(self)@[i];
                let o = old(self)@[i];
                &&& d.interaction_profile == profile
                &&& d.profile_path == profile_path
                &&& d.connected == profile.is_some()
                &&& d.previous_connected == profile.is_some()
                &&& final(events)@ == (if o.previous_connected != profile.is_some() {
                    old(events)@.push(
                        InputEvent {
                            ty: if profile.is_some() {
                                EventType::TrackedDeviceActivated
                            } else {
                                EventType::TrackedDeviceDeactivated
                            },
                            index: i as u32,
                            button: 0,
                        },
                    )
                } else {
                    old(events)@
                })
            }),
            forall|i: int|
                0 <= i < final(self)@.len() ==> (#[trigger] final(self)@[i]).seated_pose.is_none()
                    && final(self)@[i].standing_pose.is_none(),
            forall|i: int|
                0 <= i < old(self)@.len() && i != controller_index(hand) ==> {
                    let d = #[trigger] final(self)@[i];
                    let o = old(self)@[i];
                    &&& d.device_type == o.device_type
                    &&& d.interaction_profile == o.interaction_profile
                    &&& d.profile_path == o.profile_path
                    &&& d.connected == o.connected
                    &&& d.previous_connected == o.previous_connected
                },
    {
        let index: usize = match hand {
            Hand::Left => 1,
            Hand::Right => 2,
        };
        self.devices[index].interaction_profile = profile;
        self.devices[index].profile_path = profile_path;
        self.devices[index].connected = profile.is_some();
        let changed = self.devices[index].has_connected_changed();
        if changed {
            events.push_back(
                InputEvent {
                    ty: if profile.is_some() {
                        EventType::TrackedDeviceActivated
                    } else {
                        EventType::TrackedDeviceDeactivated
                    },
                    index: index as u32,
                    button: 0,
                },
            );
        }
        let ghost mid = self@;
        self.clear_pose_cache();
        proof {
            assert forall|i: int| 0 <= i < self@.len() implies #[trigger] self@[i] == profile_set(
                old(self)@,
                hand,
                profile_path,
                profile,
            )[i] by {
                assert(self@[i] == mid[i].without_poses());
            }
            assert(self@ =~= profile_set(old(self)@, hand, profile_path, profile));
        }
    }

    /// Replaces the generic trackers of the table by those among `xdevs`
    /// that qualify, in their order, as far as the table has room, and
    /// returns their positions in `xdevs`. Each new tracker is connected,
    /// carries the serial number of its device, and reports the properties
    /// of a Vive tracker.
    pub fn create_generic_trackers(&mut self, xdevs: &Vec<XDev>) -> (picks: Vec<usize>)
        requires
            old(self).wf(),
        ensures
            final(self).wf(),
            picks@.map_values(|p: usize| p as int) == tracker_picks(
                xdevs@,
                0,
                MAX_TRACKED_DEVICE_COUNT - FIXED_DEVICE_COUNT,
            ),
            final(self)@.len() == FIXED_DEVICE_COUNT + picks@.len(),
            forall|i: int| 0 <= i < FIXED_DEVICE_COUNT ==> final(self)@[i] == old(self)@[i],
            forall|k: int|
                0 <= k < picks@.len() ==> {
                    let d = #[trigger] final(self)@[FIXED_DEVICE_COUNT + k];
                    &&& 0 <= picks@[k] < xdevs@.len()
                    &&& d.device_type == (TrackedDeviceType::GenericTracker {
                        serial: xdevs@[picks@[k] as int].serial,
                    })
                    &&& d.connected
                    &&& d.interaction_profile == Some(Profile::ViveTracker)
                    &&& d.seated_pose.is_none()
                    &&& d.standing_pose.is_none()
                },
    {
        self.devices.truncate(FIXED_DEVICE_COUNT as usize);
        let ghost fixed = self.devices@;
        assert(fixed =~= old(self)@.subrange(0, 3));
        let room: usize = (MAX_TRACKED_DEVICE_COUNT - FIXED_DEVICE_COUNT) as usize;
        let mut picks: Vec<usize> = Vec::new();
        let mut i: usize = 0;
        while i < xdevs.len() && picks.len() < room
            invariant
                i <= xdevs.len(),
                picks@.len() <= room,
                room == MAX_TRACKED_DEVICE_COUNT - FIXED_DEVICE_COUNT,
                self.devices@.len() == FIXED_DEVICE_COUNT + picks@.len(),
                self.devices@.subrange(0, 3) == fixed,
                fixed == old(self)@.subrange(0, 3),
                old(self).wf(),
                picks@.map_values(|p: usize| p as int) + tracker_picks(
                    xdevs@,
                    i as int,
                    room - picks@.len(),
                ) == tracker_picks(xdevs@, 0, room as int),
                forall|k: int|
                    0 <= k < picks@.len() ==> {
                        let d = #[trigger] self.devices@[FIXED_DEVICE_COUNT + k];
                        &&& 0 <= picks@[k] < xdevs@.len()
                        &&& d.device_type == (TrackedDeviceType::GenericTracker {
                            serial: xdevs@[picks@[k] as int].serial,
                        })
                        &&& d.connected
                        &&& d.interaction_profile == Some(Profile::ViveTracker)
                        &&& d.seated_pose.is_none()
                        &&& d.standing_pose.is_none()
                    },
            decreases xdevs.len() - i,
        {
            let xdev = &xdevs[i];
            let ghost before = picks@.map_values(|p: usize| p as int);
            let lowered = to_lowercase(xdev.name.as_str());
            if xdev.can_create_space && contains(lowered.as_str(), "tracker") {
                let mut tracker = TrackedDevice::new(
                    TrackedDeviceType::GenericTracker { serial: xdev.serial.clone() },
                    None,
                    Some(Profile::ViveTracker),
                );
                tracker.connected = true;
                let ghost devices_before = self.devices@;
                self.devices.push(tracker);
                picks.push(i);
                assert(picks@.map_values(|p: usize| p as int) =~= before + seq![i as int]);
                assert(self.devices@.subrange(0, 3) =~= devices_before.subrange(0, 3));
                assert(before + seq![i as int] + tracker_picks(
                    xdevs@,
                    i + 1,
                    room - picks@.len(),
                ) =~= before + (seq![i as int] + tracker_picks(
                    xdevs@,
                    i + 1,
                    room - picks@.len(),
                )));
            }
            i += 1;
        }
        assert(tracker_picks(xdevs@, i as int, room - picks@.len()) =~= Seq::<int>::empty());
        assert(picks@.map_values(|p: usize| p as int) + Seq::<int>::empty() =~= picks@.map_values(
            |p: usize| p as int,
        ));
        assert forall|j: int| 0 <= j < FIXED_DEVICE_COUNT implies self.devices@[j]
            == old(self)@[j] by {
            assert(self.devices@.subrange(0, 3)[j] == self.devices@[j]);
            assert(old(self)@.subrange(0, 3)[j] == old(self)@[j]);
        }
        assert forall|j: int| FIXED_DEVICE_COUNT <= j < self.devices@.len() implies (
        #[trigger] self.devices@[j]).device_type is GenericTracker by {
            let k = j - FIXED_DEVICE_COUNT;
            assert(self.devices@[FIXED_DEVICE_COUNT + k].device_type is GenericTracker);
        }
        picks
    }

    /// Tells whether the device at `index` exists and is connected. The
    /// headset always is.
    pub fn is_device_connected(&self, index: u32) -> (r: bool)
        ensures
            r == (index == HMD_INDEX || (index < self@.len() && self@[index as int].connected)),
    {
        if index == HMD_INDEX {
            return true;
        }
        match self.get_device(index) {
            Some(d) => d.connected,
            None => false,
        }
    }

    /// The class of the device at `index`; `Invalid` where there is none.
    pub fn get_tracked_device_class(&self, index: u32) -> (r: TrackedDeviceClass)
        ensures
            r == (if index == HMD_INDEX {
                TrackedDeviceClass::Hmd
            } else if index < self@.len() {
                self@[index as int].device_type.class()
            } else {
                TrackedDeviceClass::Invalid
            }),
    {
        if index == HMD_INDEX {
            return TrackedDeviceClass::Hmd;
        }
        match self.get_device(index) {
            Some(d) => d.get_class(),
            None => TrackedDeviceClass::Invalid,
        }
    }

    /// The hand of the controller at `index`.
    pub fn device_index_to_hand(&self, index: u32) -> (r: Option<Hand>)
        ensures
            r == (if index < self@.len() {
                self@[index as int].device_type.hand()
            } else {
                None
            }),
    {
        match self.get_device(index) {
            Some(d) => d.get_controller_hand(),
            None => None,
        }
    }

    /// The role of the device at `index`.
    pub fn get_controller_role_for_tracked_device_index(&self, index: u32) -> (r: ControllerRole)
        ensures
            r == (if index < self@.len() {
                match self@[index as int].device_type.hand() {
                    Some(Hand::Left) => ControllerRole::LeftHand,
                    Some(Hand::Right) => ControllerRole::RightHand,
                    None => ControllerRole::Invalid,
                }
            } else {
                ControllerRole::Invalid
            }),
    {
        match self.device_index_to_hand(index) {
            Some(Hand::Left) => ControllerRole::LeftHand,
            Some(Hand::Right) => ControllerRole::RightHand,
            None => ControllerRole::Invalid,
        }
    }

    /// The index of the connected controller with `role`, or the index
    /// that stands for no device.
    pub fn get_tracked_device_index_for_controller_role(&self, role: ControllerRole) -> (r: u32)
        requires
            self.wf(),
        ensures
            r == (match role {
                ControllerRole::LeftHand => if self@[1].connected {
                    1u32
                } else {
                    INVALID_DEVICE_INDEX
                },
                ControllerRole::RightHand => if self@[2].connected {
                    2u32
                } else {
                    INVALID_DEVICE_INDEX
                },
                ControllerRole::Invalid => INVALID_DEVICE_INDEX,
            }),
    {
        let hand = match role {
            ControllerRole::LeftHand => Hand::Left,
            ControllerRole::RightHand => Hand::Right,
            ControllerRole::Invalid => {
                return INVALID_DEVICE_INDEX;
            },
        };
        match self.get_controller_index(hand) {
            Some(i) => i,
            None => INVALID_DEVICE_INDEX,
        }
    }

    /// How active the device at `index` is: the headset and connected
    /// controllers are in use, nothing is known of the rest.
    pub fn get_tracked_device_activity_level(&self, index: u32) -> (r: DeviceActivityLevel)
        ensures
            r == (if index == HMD_INDEX || (index < self@.len() && self@[index as int].device_type
                is Controller && self@[index as int].connected) {
                DeviceActivityLevel::UserInteraction
            } else {
                DeviceActivityLevel::Unknown
            }),
    {
        if index == HMD_INDEX {
            return DeviceActivityLevel::UserInteraction;
        }
        if self.device_index_to_hand(index).is_some() && self.is_device_connected(index) {
            DeviceActivityLevel::UserInteraction
        } else {
            DeviceActivityLevel::Unknown
        }
    }

    /// The characters of a string property of the device at `index`, or
    /// the error that the read ends in: a device that is not connected is
    /// invalid; the headset answers for serial number, manufacturer and
    /// controller type with a placeholder; any other device answers from
    /// its profile.
    pub open spec fn string_property(&self, index: u32, property: TrackedDeviceProperty) -> Result<
        Seq<char>,
        TrackedPropertyError,
    > {
        if !(index == HMD_INDEX || (index < self@.len() && self@[index as int].connected)) {
            Err(TrackedPropertyError::InvalidDevice)
        } else if index == HMD_INDEX {
            if property == TrackedDeviceProperty::SerialNumber || property
                == TrackedDeviceProperty::ManufacturerName || property
                == TrackedDeviceProperty::ControllerType {
                Ok("<unknown>"@)
            } else {
                Err(TrackedPropertyError::UnknownProperty)
            }
        } else {
            match self@[index as int].string_property(property) {
                Some(v) => Ok(v),
                None => Err(TrackedPropertyError::UnknownProperty),
            }
        }
    }

    /// Reads a string property of the device at `index`.
    pub fn get_string_tracked_device_property(&self, index: u32, property: TrackedDeviceProperty)
        -> (r: Result<String, TrackedPropertyError>)
        ensures
            r.is_ok() == self.string_property(index, property).is_ok(),
            r.is_ok() ==> r.unwrap()@ == self.string_property(index, property).unwrap(),
            r matches Err(e) ==> self.string_property(index, property) == (Err::<
                Seq<char>,
                TrackedPropertyError,
            >(e)),
    {
        if !self.is_device_connected(index) {
            return Err(TrackedPropertyError::InvalidDevice);
        }
        if index == HMD_INDEX {
            return match property {
                TrackedDeviceProperty::SerialNumber
                | TrackedDeviceProperty::ManufacturerName
                | TrackedDeviceProperty::ControllerType => Ok(String::from_str("<unknown>")),
                _ => Err(TrackedPropertyError::UnknownProperty),
            };
        }
        match self.devices[index as usize].get_string_property(property) {
            Some(v) => Ok(v),
            None => Err(TrackedPropertyError::UnknownProperty),
        }
    }

    /// The value of a 32-bit property of the device at `index`, or the
    /// error that the read ends in.
    pub open spec fn int_property(&self, index: u32, property: TrackedDeviceProperty) -> Result<
        i32,
        TrackedPropertyError,
    > {
        if !(index == HMD_INDEX || (index < self@.len() && self@[index as int].connected)) {
            Err(TrackedPropertyError::InvalidDevice)
        } else if index >= self@.len() {
            Err(TrackedPropertyError::UnknownProperty)
        } else {
            match self@[index as int].int_property(property) {
                Some(v) => Ok(v),
                None => Err(TrackedPropertyError::UnknownProperty),
            }
        }
    }

    /// Reads a 32-bit property of the device at `index`.
    pub fn get_int32_tracked_device_property(&self, index: u32, property: TrackedDeviceProperty)
        -> (r: Result<i32, TrackedPropertyError>)
        ensures
            r == self.int_property(index, property),
    {
        if !self.is_device_connected(index) {
            return Err(TrackedPropertyError::InvalidDevice);
        }
        match self.get_device(index) {
            Some(d) => match d.get_int_property(property) {
                Some(v) => Ok(v),
                None => Err(TrackedPropertyError::UnknownProperty),
            },
            None => Err(TrackedPropertyError::UnknownProperty),
        }
    }

    /// The value of a 64-bit property of the device at `index`, or the
    /// error that the read ends in.
    pub open spec fn uint_property(&self, index: u32, property: TrackedDeviceProperty) -> Result<
        u64,
        TrackedPropertyError,
    > {
        if !(index == HMD_INDEX || (index < self@.len() && self@[index as int].connected)) {
            Err(TrackedPropertyError::InvalidDevice)
        } else if index >= self@.len() {
            Err(TrackedPropertyError::UnknownProperty)
        } else {
            match self@[index as int].uint_property(property) {
                Some(v) => Ok(v),
                None => Err(TrackedPropertyError::UnknownProperty),
            }
        }
    }

    /// Reads a 64-bit property of the device at `index`.
    pub fn get_uint64_tracked_device_property(&self, index: u32, property: TrackedDeviceProperty)
        -> (r: Result<u64, TrackedPropertyError>)
        ensures
            r == self.uint_property(index, property),
    {
        if !self.is_device_connected(index) {
            return Err(TrackedPropertyError::InvalidDevice);
        }
        match self.get_device(index) {
            Some(d) => match d.get_uint_property(property) {
                Some(v) => Ok(v),
                None => Err(TrackedPropertyError::UnknownProperty),
            },
            None => Err(TrackedPropertyError::UnknownProperty),
        }
    }
}

/// What a string property read leaves in a buffer of the host.
#[derive(Clone, Copy, Debug, PartialEq, Eq)]
pub struct StringCopy {
    /// The number of bytes that the value needs, its end mark included.
    pub required: usize,
    /// Whether the buffer takes the value. A buffer that is too small is
    /// left as it is.
    pub fits: bool,
}

/// Decides whether a value of `value_bytes` bytes, which needs one more for
/// its end mark, fits a buffer of `buffer_size` bytes. The bytes needed
/// are reported either way.
pub fn string_property_copy(value_bytes: usize, buffer_size: u32) -> (r: Result<
    StringCopy,
    TrackedPropertyError,
>)
    ensures
        value_bytes < usize::MAX ==> r.is_ok() && r.unwrap().required == value_bytes + 1
            && r.unwrap().fits == (buffer_size >= value_bytes + 1),
        value_bytes == usize::MAX ==> r == Err::<StringCopy, TrackedPropertyError>(
            TrackedPropertyError::BufferTooSmall,
        ),
{
    if value_bytes == usize::MAX {
        return Err(TrackedPropertyError::BufferTooSmall);
    }
    let required: usize = value_bytes + 1;
    Ok(StringCopy { required, fits: buffer_size as usize >= required })
}

/// Within a frame a pose is located once: whatever a second read locates,
/// it finds the pose that the first read cached. The start of a frame
/// empties the cache for every origin, and a pose cached for one of the
/// seated and the standing origin leaves the other as it was.
pub proof fn lemma_pose_memoized(
    device: TrackedDevice,
    origin: TrackingUniverseOrigin,
    first: TrackedDevicePose,
    second: TrackedDevicePose,
)
    ensures
        device.with_pose(origin, first).with_pose(origin, second) == device.with_pose(
            origin,
            first,
        ),
        device.with_pose(origin, first).cached(origin).is_some(),
        device.cached(origin).is_none() ==> device.with_pose(origin, first).cached(origin) == Some(
            first,
        ),
        device.cached(origin).is_some() ==> device.with_pose(origin, first).cached(origin)
            == device.cached(origin),
        device.with_pose(TrackingUniverseOrigin::Seated, first).cached(
            TrackingUniverseOrigin::Standing,
        ) == device.cached(TrackingUniverseOrigin::Standing),
        device.with_pose(TrackingUniverseOrigin::Standing, first).cached(
            TrackingUniverseOrigin::Seated,
        ) == device.cached(TrackingUniverseOrigin::Seated),
        device.with_pose(origin, first).without_poses().cached(origin).is_none(),
{
}

} // verus!
