use xrizer::devices::TrackedDeviceProperty::{
    Axis0Type, Axis1Type, Axis2Type, Axis3Type, Axis4Type, ControllerType, ManufacturerName,
    ModelNumber, Other, RegisteredDeviceType, RenderModelName, SerialNumber, SupportedButtons,
    TrackingSystemName,
};
use xrizer::devices::{
    string_property_copy, ControllerAxisType, ControllerRole, DeviceActivityLevel, DeviceSpace,
    PoseLookup, StringCopy, TrackedDevice, TrackedDeviceClass, TrackedDeviceList,
    TrackedDevicePose, TrackedDeviceProperty, TrackedDeviceType, TrackedPropertyError,
    TrackingResult, TrackingUniverseOrigin, XDev, INVALID_DEVICE_INDEX, MAX_TRACKED_DEVICE_COUNT,
};
use xrizer::error::InputError;
use xrizer::events::{EventQueue, EventType, InputEvent};
use xrizer::extended_display::{ExtendedDisplay, WindowBounds};
use xrizer::profiles::Profile;
use xrizer::runtime::Hand;

#[test]
fn unity_required_properties() {
    let devices = TrackedDeviceList::new();

    let test_prop = |property: TrackedDeviceProperty| {
        let value = devices.get_string_tracked_device_property(0, property).unwrap();
        let copy = string_property_copy(value.len(), 0).unwrap();
        assert!(!copy.fits);
        assert!(copy.required > 0);
        let copy = string_property_copy(value.len(), copy.required as u32).unwrap();
        assert!(copy.fits);
        assert_eq!(copy.required, value.len() + 1);
        assert_eq!(value, "<unknown>");
    };

    test_prop(SerialNumber);
    test_prop(ManufacturerName);
    test_prop(ControllerType);
    assert_eq!(
        devices.get_string_tracked_device_property(0, ModelNumber),
        Err(TrackedPropertyError::UnknownProperty)
    );
}

#[test]
fn string_buffer_sizes() {
    assert_eq!(string_property_copy(0, 0), Ok(StringCopy { required: 1, fits: false }));
    assert_eq!(string_property_copy(0, 1), Ok(StringCopy { required: 1, fits: true }));
    assert_eq!(string_property_copy(9, 9), Ok(StringCopy { required: 10, fits: false }));
    assert_eq!(string_property_copy(9, 10), Ok(StringCopy { required: 10, fits: true }));
    assert_eq!(string_property_copy(9, u32::MAX), Ok(StringCopy { required: 10, fits: true }));
    assert_eq!(string_property_copy(usize::MAX, 10), Err(TrackedPropertyError::BufferTooSmall));
}

#[test]
fn device_table_layout() {
    let mut devices = TrackedDeviceList::new();
    assert_eq!(devices.len(), 3);
    assert_eq!(devices.get_tracked_device_class(0), TrackedDeviceClass::Hmd);
    assert_eq!(devices.get_tracked_device_class(1), TrackedDeviceClass::Controller);
    assert_eq!(devices.get_tracked_device_class(2), TrackedDeviceClass::Controller);
    assert_eq!(devices.get_tracked_device_class(3), TrackedDeviceClass::Invalid);
    assert!(devices.is_device_connected(0));
    assert!(!devices.is_device_connected(1));
    assert!(!devices.is_device_connected(64));
    assert_eq!(devices.device_index_to_hand(0), None);
    assert_eq!(devices.device_index_to_hand(1), Some(Hand::Left));
    assert_eq!(devices.device_index_to_hand(2), Some(Hand::Right));
    assert_eq!(devices.device_index_to_hand(3), None);
    assert_eq!(devices.get_controller_role_for_tracked_device_index(1), ControllerRole::LeftHand);
    assert_eq!(devices.get_controller_role_for_tracked_device_index(2), ControllerRole::RightHand);
    assert_eq!(devices.get_controller_role_for_tracked_device_index(0), ControllerRole::Invalid);
    assert_eq!(devices.get_tracked_device_index_for_controller_role(ControllerRole::LeftHand), INVALID_DEVICE_INDEX);
    assert_eq!(devices.get_tracked_device_index_for_controller_role(ControllerRole::Invalid), INVALID_DEVICE_INDEX);
    assert_eq!(devices.get_controller_index(Hand::Right), None);
    assert_eq!(devices.get_tracked_device_activity_level(0), DeviceActivityLevel::UserInteraction);
    assert_eq!(devices.get_tracked_device_activity_level(1), DeviceActivityLevel::Unknown);
    assert_eq!(*devices.get_hmd().get_type(), TrackedDeviceType::Hmd);
    assert_eq!(devices.get_controller(Hand::Right).get_controller_hand(), Some(Hand::Right));
    assert!(devices.get_device(3).is_none());

    let mut events = EventQueue::new();
    devices.set_interaction_profile(Hand::Right, 42, Some(Profile::Knuckles), &mut events);
    assert_eq!(devices.get_controller_index(Hand::Right), Some(2));
    assert_eq!(devices.get_tracked_device_index_for_controller_role(ControllerRole::RightHand), 2);
    assert_eq!(devices.get_tracked_device_activity_level(2), DeviceActivityLevel::UserInteraction);
    assert_eq!(devices.get_device(2).unwrap().profile_path, 42);
    assert_eq!(
        events.pop_front(),
        Some(InputEvent { ty: EventType::TrackedDeviceActivated, index: 2, button: 0 })
    );
    // The same profile again is no change.
    devices.set_interaction_profile(Hand::Right, 42, Some(Profile::Knuckles), &mut events);
    assert_eq!(events.len(), 0);
    devices.set_interaction_profile(Hand::Right, 0, None, &mut events);
    assert!(!devices.is_device_connected(2));
    assert_eq!(
        events.pop_front(),
        Some(InputEvent { ty: EventType::TrackedDeviceDeactivated, index: 2, button: 0 })
    );
    assert_eq!(events.pop_front(), None);
}

#[test]
fn controller_properties_come_from_the_profile() {
    let mut devices = TrackedDeviceList::new();
    let mut events = EventQueue::new();
    // A controller without profile is not connected.
    assert_eq!(devices.get_string_tracked_device_property(1, ControllerType), Err(TrackedPropertyError::InvalidDevice));
    assert_eq!(devices.get_int32_tracked_device_property(1, Axis0Type), Err(TrackedPropertyError::InvalidDevice));
    assert_eq!(devices.get_uint64_tracked_device_property(9, SupportedButtons), Err(TrackedPropertyError::InvalidDevice));
    devices.set_interaction_profile(Hand::Left, 1, Some(Profile::Knuckles), &mut events);
    devices.set_interaction_profile(Hand::Right, 1, Some(Profile::ViveWands), &mut events);
    let s = |d: &TrackedDeviceList, i: u32, p: TrackedDeviceProperty| d.get_string_tracked_device_property(i, p);
    assert_eq!(s(&devices, 1, ControllerType).unwrap(), "knuckles");
    assert_eq!(s(&devices, 1, ModelNumber).unwrap(), "Knuckles Left");
    assert_eq!(s(&devices, 1, RenderModelName).unwrap(), "{indexcontroller}valve_controller_knu_1_0_left");
    assert_eq!(s(&devices, 1, RegisteredDeviceType).unwrap(), "valve/index_controllerLHR-FFFFFFF1");
    assert_eq!(s(&devices, 1, SerialNumber).unwrap(), "LHR-FFFFFFF1");
    assert_eq!(s(&devices, 1, TrackingSystemName).unwrap(), "lighthouse");
    assert_eq!(s(&devices, 1, ManufacturerName).unwrap(), "Valve");
    assert_eq!(s(&devices, 1, SupportedButtons), Err(TrackedPropertyError::UnknownProperty));
    assert_eq!(s(&devices, 1, Other), Err(TrackedPropertyError::UnknownProperty));
    assert_eq!(s(&devices, 2, SerialNumber).unwrap(), "LHR-00000002");
    assert_eq!(s(&devices, 2, RenderModelName).unwrap(), "vr_controller_vive_1_5");

    let i = |d: &TrackedDeviceList, i: u32, p: TrackedDeviceProperty| d.get_int32_tracked_device_property(i, p);
    assert_eq!(i(&devices, 1, Axis0Type), Ok(ControllerAxisType::Joystick.number()));
    assert_eq!(i(&devices, 2, Axis0Type), Ok(ControllerAxisType::TrackPad.number()));
    assert_eq!(i(&devices, 1, Axis1Type), Ok(3));
    assert_eq!(i(&devices, 1, Axis2Type), Ok(3));
    assert_eq!(i(&devices, 1, Axis3Type), Ok(0));
    assert_eq!(i(&devices, 1, Axis4Type), Ok(0));
    assert_eq!(i(&devices, 1, SerialNumber), Err(TrackedPropertyError::UnknownProperty));
    assert_eq!(i(&devices, 0, Axis0Type), Err(TrackedPropertyError::UnknownProperty));
    assert_eq!(ControllerAxisType::Joystick.number(), 2);
    assert_eq!(ControllerAxisType::TrackPad.number(), 1);

    assert_eq!(devices.get_uint64_tracked_device_property(1, SupportedButtons), Ok(0x7_0000_0087));
    assert_eq!(devices.get_uint64_tracked_device_property(2, SupportedButtons), Ok(0x3_0000_0007));
    assert_eq!(devices.get_uint64_tracked_device_property(0, SupportedButtons), Err(TrackedPropertyError::UnknownProperty));
    assert_eq!(devices.get_uint64_tracked_device_property(1, Axis0Type), Err(TrackedPropertyError::UnknownProperty));
}

fn xdev(name: &str, serial: &str, can_create_space: bool) -> XDev {
    XDev { name: name.to_string(), serial: serial.to_string(), can_create_space }
}

#[test]
fn generic_trackers_fill_the_table() {
    let mut devices = TrackedDeviceList::new();
    let xdevs = vec![
        xdev("Vive TRACKER 3.0", "LHR-A", true),
        xdev("Index Controller", "LHR-B", true),
        xdev("tundra tracker", "LHR-C", false),
        xdev("Tundra Tracker", "LHR-D", true),
    ];
    let picks = devices.create_generic_trackers(&xdevs);
    assert_eq!(picks, vec![0, 3]);
    assert_eq!(devices.len(), 5);
    assert_eq!(devices.get_tracked_device_class(3), TrackedDeviceClass::GenericTracker);
    assert!(devices.is_device_connected(4));
    assert_eq!(devices.device_index_to_hand(3), None);
    assert_eq!(devices.get_string_tracked_device_property(3, SerialNumber).unwrap(), "LHR-A");
    assert_eq!(devices.get_string_tracked_device_property(4, SerialNumber).unwrap(), "LHR-D");
    assert_eq!(devices.get_string_tracked_device_property(4, ControllerType).unwrap(), "vive_tracker_handheld_object");
    assert_eq!(devices.get_string_tracked_device_property(4, ModelNumber).unwrap(), "Vive Tracker Handheld Object");
    assert_eq!(devices.get_int32_tracked_device_property(3, Axis0Type), Err(TrackedPropertyError::UnknownProperty));
    assert_eq!(
        devices.pose_lookup(4, TrackingUniverseOrigin::Standing),
        Some(PoseLookup::Locate(DeviceSpace::Tracker(4)))
    );
    assert_eq!(
        *devices.get_device(3).unwrap().get_type(),
        TrackedDeviceType::GenericTracker { serial: "LHR-A".to_string() }
    );

    // Enumerating again replaces the trackers.
    let picks = devices.create_generic_trackers(&vec![xdev("tracker", "X", true)]);
    assert_eq!(picks, vec![0]);
    assert_eq!(devices.len(), 4);
    assert_eq!(devices.get_string_tracked_device_property(3, SerialNumber).unwrap(), "X");

    // The table holds 64 devices.
    let many: Vec<XDev> = (0..100).map(|i| xdev("Tracker", &format!("S{i}"), true)).collect();
    let picks = devices.create_generic_trackers(&many);
    assert_eq!(picks, (0..61).collect::<Vec<usize>>());
    assert_eq!(devices.len(), MAX_TRACKED_DEVICE_COUNT as usize);
    assert_eq!(devices.get_string_tracked_device_property(63, SerialNumber).unwrap(), "S60");
    let extra = TrackedDevice::new(TrackedDeviceType::GenericTracker { serial: "late".to_string() }, None, None);
    assert_eq!(devices.push_device(extra), Err(InputError::MaxCapacityReached));
    assert_eq!(devices.len(), 64);

    let mut few = TrackedDeviceList::new();
    let tracker = TrackedDevice::new(
        TrackedDeviceType::GenericTracker { serial: "one".to_string() },
        Some(9),
        Some(Profile::ViveTracker),
    );
    assert!(!tracker.connected);
    assert_eq!(tracker.profile_path, 9);
    assert_eq!(few.push_device(tracker), Ok(3));
    assert!(!few.is_device_connected(3));
}

#[test]
fn pose_from_location_flags() {
    let matrix = [1, 2, 3, 4, 5, 6, 7, 8, 9, 10, 11, 12];
    let located = TrackedDevicePose::from_location(0b1111, matrix, [1, 2, 3], [4, 5, 6]);
    assert!(located.pose_is_valid && located.device_is_connected);
    assert_eq!(located.tracking_result, TrackingResult::RunningOk);
    assert_eq!(located.device_to_absolute_tracking, matrix);
    assert_eq!(located.velocity, [1, 2, 3]);
    assert_eq!(located.angular_velocity, [4, 5, 6]);
    assert_eq!(TrackedDevicePose::from_location(0b0011, matrix, [0; 3], [0; 3]).pose_is_valid, true);
    for flags in [0, 0b0001, 0b0010, 0b1100, 0b1110, 0b1101] {
        let lost = TrackedDevicePose::from_location(flags, matrix, [1, 2, 3], [4, 5, 6]);
        assert!(!lost.pose_is_valid && !lost.device_is_connected, "{flags:b}");
        assert_eq!(lost.tracking_result, TrackingResult::RunningOutOfRange);
        assert_eq!(lost.device_to_absolute_tracking, [0; 12]);
        assert_eq!(lost.velocity, [0; 3]);
    }
    let empty = TrackedDevicePose::new();
    assert!(!empty.pose_is_valid && !empty.device_is_connected);
    assert_eq!(empty.tracking_result, TrackingResult::Uninitialized);
    assert_eq!(empty.device_to_absolute_tracking, [0; 12]);
}

#[test]
fn device_pose_cache() {
    let mut d = TrackedDevice::new(TrackedDeviceType::Controller { hand: Hand::Left }, None, None);
    let a = TrackedDevicePose::from_location(3, [1; 12], [0; 3], [0; 3]);
    let b = TrackedDevicePose::from_location(3, [2; 12], [0; 3], [0; 3]);
    assert_eq!(d.cached_pose(TrackingUniverseOrigin::Seated), None);
    assert_eq!(d.store_pose(TrackingUniverseOrigin::Seated, a), a);
    assert_eq!(d.store_pose(TrackingUniverseOrigin::Seated, b), a);
    assert_eq!(d.cached_pose(TrackingUniverseOrigin::Standing), None);
    assert_eq!(d.store_pose(TrackingUniverseOrigin::RawAndUncalibrated, b), b);
    assert_eq!(d.cached_pose(TrackingUniverseOrigin::Standing), Some(b));
    assert_eq!(d.cached_pose(TrackingUniverseOrigin::Seated), Some(a));
    d.clear_pose_cache();
    assert_eq!(d.cached_pose(TrackingUniverseOrigin::Seated), None);
    assert_eq!(d.cached_pose(TrackingUniverseOrigin::Standing), None);
    assert!(!d.has_connected_changed());
    d.connected = true;
    assert!(d.has_connected_changed());
    assert!(!d.has_connected_changed());
    assert_eq!(d.get_class(), TrackedDeviceClass::Controller);
}

#[test]
fn events_are_first_in_first_out() {
    let mut q = EventQueue::new();
    assert_eq!(q.pop_front(), None);
    let e = |button: u32| InputEvent { ty: EventType::ButtonPress, index: 1, button };
    q.push_back(e(1));
    q.push_back(e(2));
    assert_eq!(q.len(), 2);
    assert_eq!(q.pop_front(), Some(e(1)));
    q.push_back(e(3));
    assert_eq!(q.pop_front(), Some(e(2)));
    assert_eq!(q.pop_front(), Some(e(3)));
    assert_eq!(q.pop_front(), None);
    assert_eq!(EventType::TrackedDeviceActivated.number(), 100);
    assert_eq!(EventType::TrackedDeviceDeactivated.number(), 101);
    assert_eq!(EventType::ButtonPress.number(), 200);
    assert_eq!(EventType::ButtonUnpress.number(), 201);
    assert_eq!(EventType::ButtonTouch.number(), 202);
    assert_eq!(EventType::ButtonUntouch.number(), 203);
}

#[test]
fn error_numbers() {
    assert_eq!(InputError::WrongType.number(), 2);
    assert_eq!(InputError::InvalidHandle.number(), 3);
    assert_eq!(InputError::InvalidParam.number(), 4);
    assert_eq!(InputError::MaxCapacityReached.number(), 6);
    assert_eq!(InputError::NoActiveActionSet.number(), 8);
    assert_eq!(InputError::InvalidDevice.number(), 9);
}

#[test]
fn extended_display_window_bounds() {
    let display = ExtendedDisplay::default();
    assert_eq!(display.get_window_bounds(), WindowBounds { x: 0, y: 0, width: 1280, height: 720 });
}

#[test]
fn input_answers_for_its_devices() {
    let mut input = xrizer::input::Input::new();
    assert!(input.is_device_connected(0));
    assert!(!input.is_device_connected(1));
    assert!(!input.is_device_connected(3));
    assert_eq!(input.get_controller_device_index(Hand::Left), None);
    input.set_interaction_profile(Hand::Left, 7, Some(Profile::Knuckles));
    assert!(input.is_device_connected(1));
    assert_eq!(input.get_controller_device_index(Hand::Left), Some(1));
    assert_eq!(input.get_controller_device_index(Hand::Right), None);

    assert_eq!(input.device_index_to_tracked_device_class(0), Some(TrackedDeviceClass::Hmd));
    assert_eq!(input.device_index_to_tracked_device_class(2), Some(TrackedDeviceClass::Controller));
    assert_eq!(input.device_index_to_tracked_device_class(3), None);
    assert_eq!(input.device_index_to_hand(0), None);
    assert_eq!(input.device_index_to_hand(1), Some(Hand::Left));
    assert_eq!(input.device_index_to_hand(2), Some(Hand::Right));
    assert_eq!(input.device_index_to_hand(3), None);

    assert_eq!(input.get_device_string_tracked_property(1, ControllerType).as_deref(), Some("knuckles"));
    assert_eq!(input.get_device_string_tracked_property(1, ModelNumber).as_deref(), Some("Knuckles Left"));
    assert_eq!(input.get_device_string_tracked_property(1, Axis0Type), None);
    assert_eq!(input.get_device_string_tracked_property(2, ControllerType), None);
    assert_eq!(input.get_device_string_tracked_property(3, ControllerType), None);
    assert_eq!(input.get_device_int_tracked_property(1, Axis0Type), Some(2));
    assert_eq!(input.get_device_int_tracked_property(0, Axis0Type), None);
    assert_eq!(input.get_device_int_tracked_property(5, Axis0Type), None);
    assert_eq!(input.get_device_uint_tracked_property(1, SupportedButtons), Some(0x7_0000_0087));
    assert_eq!(input.get_device_uint_tracked_property(2, SupportedButtons), None);

    assert_eq!(
        input.get_controller_string_tracked_property(Hand::Left, SerialNumber).as_deref(),
        Some("LHR-FFFFFFF1")
    );
    assert_eq!(input.get_controller_string_tracked_property(Hand::Right, SerialNumber), None);
    assert_eq!(input.get_controller_int_tracked_property(Hand::Left, Axis1Type), Some(3));
    assert_eq!(input.get_controller_int_tracked_property(Hand::Right, Axis1Type), None);
}
