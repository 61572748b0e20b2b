//! The Samsung Odyssey controller. It takes its inputs from the Windows Mixed
//! Reality motion controller and reports properties of its own.

use crate::profiles::ms_motion_controller::HolographicController;
use crate::profiles::LegacyBindings;
use crate::profiles::LegacyPaths;
use crate::profiles::MainAxisType;
use crate::profiles::PathTranslation;
use crate::profiles::ProfileProperties;
use crate::profiles::Property;
use crate::profiles::SkeletalInputBindings;
use crate::profiles::SkeletalPaths;
use vstd::prelude::*;

verus! {

pub struct SamsungOdysseyController;

impl SamsungOdysseyController {
    /// The runtime path of the profile.
    pub open spec fn path() -> &'static str {
        "/interaction_profiles/samsung/odyssey_controller"
    }

    /// What is reported of a device that uses the profile.
    pub open spec fn device_properties() -> ProfileProperties {
        ProfileProperties {
            model: Property::PerHand { left: "WindowsMR: 0x04E8/0x065D/0/1", right: "WindowsMR: 0x04E8/0x065D/0/2" },
            openvr_controller_type: "holographic_controller",
            render_model_name: Property::PerHand { left: "C:\\Users\\steamuser\\AppData\\Local\\Microsoft/Windows/OpenVR\\controller_1629_1256_1\\controller.obj", right: "C:\\Users\\steamuser\\AppData\\Local\\Microsoft/Windows/OpenVR\\controller_1629_1256_2\\controller.obj" },
            main_axis: MainAxisType::Thumbstick,
            registered_device_type: Property::PerHand { left: "WindowsMR/MRSOURCE0", right: "WindowsMR/MRSOURCE1" },
            serial_number: Property::PerHand { left: "MRSOURCE0", right: "MRSOURCE1" },
            tracking_system_name: "holographic",
            manufacturer_name: "WindowsMR: 0x04E8",
            legacy_buttons_mask: 0x700000087,
        }
    }

    /// The rewrites that turn a binding path into an input path of the profile.
    pub open spec fn translations() -> Seq<PathTranslation> {
        HolographicController::translations()
    }

    /// Every input and output path that the profile offers.
    pub open spec fn legal() -> Seq<&'static str> {
        HolographicController::legal()
    }

    /// The inputs behind the legacy action set, if the profile has any.
    pub open spec fn legacy() -> Option<LegacyPaths> {
        HolographicController::legacy()
    }

    /// The inputs that feed the estimated hand skeleton.
    pub open spec fn skeletal() -> SkeletalPaths {
        HolographicController::skeletal()
    }

    pub fn profile_path(&self) -> (r: &'static str)
        ensures
            r == Self::path(),
    {
        "/interaction_profiles/samsung/odyssey_controller"
    }

    pub fn properties(&self) -> (r: ProfileProperties)
        ensures
            r == Self::device_properties(),
    {
        ProfileProperties {
            model: Property::PerHand { left: "WindowsMR: 0x04E8/0x065D/0/1", right: "WindowsMR: 0x04E8/0x065D/0/2" },
            openvr_controller_type: "holographic_controller",
            render_model_name: Property::PerHand { left: "C:\\Users\\steamuser\\AppData\\Local\\Microsoft/Windows/OpenVR\\controller_1629_1256_1\\controller.obj", right: "C:\\Users\\steamuser\\AppData\\Local\\Microsoft/Windows/OpenVR\\controller_1629_1256_2\\controller.obj" },
            main_axis: MainAxisType::Thumbstick,
            registered_device_type: Property::PerHand { left: "WindowsMR/MRSOURCE0", right: "WindowsMR/MRSOURCE1" },
            serial_number: Property::PerHand { left: "MRSOURCE0", right: "MRSOURCE1" },
            tracking_system_name: "holographic",
            manufacturer_name: "WindowsMR: 0x04E8",
            legacy_buttons_mask: 0x700000087,
        }
    }

    pub fn translate_map(&self) -> (r: Vec<PathTranslation>)
        ensures
            r@ == Self::translations(),
    {
        HolographicController.translate_map()
    }

    pub fn legal_paths(&self) -> (r: Vec<&'static str>)
        ensures
            r@ == Self::legal(),
    {
        HolographicController.legal_paths()
    }

    pub fn legacy_bindings(&self) -> (r: Option<LegacyBindings>)
        ensures
            r.is_some() == Self::legacy().is_some(),
            r.is_some() ==> r.unwrap()@ == Self::legacy().unwrap(),
    {
        HolographicController.legacy_bindings()
    }

    pub fn skeletal_input_bindings(&self) -> (r: SkeletalInputBindings)
        ensures
            r@ == Self::skeletal(),
    {
        HolographicController.skeletal_input_bindings()
    }
}

} // verus!
