//! Interaction profiles: for each kind of controller the runtime path of
//! its profile, the input paths it offers, the rewrites that turn an
//! OpenVR-style binding path into one of them, the inputs behind the legacy
//! controller state and the estimated skeleton, and the properties reported
//! for a device that uses it.

pub mod hp_motion_controller;
pub mod knuckles;
pub mod ms_motion_controller;
pub mod oculus_touch;
pub mod samsung_odyssey_controller;
pub mod simple_controller;
pub mod vive_controller;
pub mod vive_focus3;
pub mod vive_tracker;
pub mod vrlink_hand;

use crate::profiles::hp_motion_controller::ReverbG2Controller;
use crate::profiles::knuckles::Knuckles;
use crate::profiles::ms_motion_controller::HolographicController;
use crate::profiles::oculus_touch::Touch;
use crate::profiles::samsung_odyssey_controller::SamsungOdysseyController;
use crate::profiles::simple_controller::SimpleController;
use crate::profiles::vive_controller::ViveWands;
use crate::profiles::vive_focus3::ViveFocus3;
use crate::profiles::vive_tracker::ViveTracker;
use crate::profiles::vrlink_hand::VRLinkHand;
use crate::runtime::Hand;
use crate::strings::contains;
use crate::strings::contains_seq;
use crate::strings::replace;
use crate::strings::replaced;
use crate::strings::str_eq;
use vstd::prelude::*;
use vstd::string::StringExecFns;

verus! {

/// One rewrite of a binding path: every `from` becomes `to`, and `stop`
/// ends the rewriting of a path that held `from`.
#[derive(Clone, Copy, Debug, PartialEq, Eq)]
pub struct PathTranslation {
    pub from: &'static str,
    pub to: &'static str,
    pub stop: bool,
}

/// The kind of the main two-axis input of a controller.
#[derive(Clone, Copy, Debug, PartialEq, Eq, Structural)]
pub enum MainAxisType {
    Thumbstick,
    Trackpad,
}

/// A property that may differ between the hands.
#[derive(Clone, Copy, Debug, PartialEq, Eq)]
pub enum Property {
    BothHands(&'static str),
    PerHand { left: &'static str, right: &'static str },
}

impl Property {
    /// The value for `hand`.
    pub open spec fn of(self, hand: Hand) -> &'static str {
        match self {
            Property::BothHands(v) => v,
            Property::PerHand { left, right } => match hand {
                Hand::Left => left,
                Hand::Right => right,
            },
        }
    }

    /// Reads the value for `hand`.
    pub fn get(&self, hand: Hand) -> (r: &'static str)
        ensures
            r == self.of(hand),
    {
        match self {
            Property::BothHands(v) => v,
            Property::PerHand { left, right } => match hand {
                Hand::Left => left,
                Hand::Right => right,
            },
        }
    }
}

/// What is reported of a device that uses a profile.
#[derive(Clone, Copy, Debug, PartialEq, Eq)]
pub struct ProfileProperties {
    pub model: Property,
    pub openvr_controller_type: &'static str,
    pub render_model_name: Property,
    pub main_axis: MainAxisType,
    pub registered_device_type: Property,
    pub serial_number: Property,
    pub tracking_system_name: &'static str,
    pub manufacturer_name: &'static str,
    pub legacy_buttons_mask: u64,
}

/// The input paths behind each action of the legacy action set.
pub struct LegacyBindings {
    pub grip_pose: Vec<&'static str>,
    pub app_menu: Vec<&'static str>,
    pub a: Vec<&'static str>,
    pub trigger: Vec<&'static str>,
    pub trigger_click: Vec<&'static str>,
    pub squeeze: Vec<&'static str>,
    pub squeeze_click: Vec<&'static str>,
    pub main_xy: Vec<&'static str>,
    pub main_xy_click: Vec<&'static str>,
    pub main_xy_touch: Vec<&'static str>,
    pub haptic: Vec<&'static str>,
}

/// The input paths that feed the estimated hand skeleton.
pub struct SkeletalInputBindings {
    pub thumb_touch: Vec<&'static str>,
    pub index_touch: Vec<&'static str>,
    pub index_curl: Vec<&'static str>,
    pub rest_curl: Vec<&'static str>,
}

/// The model of a set of legacy bindings: each list as a sequence.
pub struct LegacyPaths {
    pub grip_pose: Seq<&'static str>,
    pub app_menu: Seq<&'static str>,
    pub a: Seq<&'static str>,
    pub trigger: Seq<&'static str>,
    pub trigger_click: Seq<&'static str>,
    pub squeeze: Seq<&'static str>,
    pub squeeze_click: Seq<&'static str>,
    pub main_xy: Seq<&'static str>,
    pub main_xy_click: Seq<&'static str>,
    pub main_xy_touch: Seq<&'static str>,
    pub haptic: Seq<&'static str>,
}

/// The model of a set of skeletal bindings: each list as a sequence.
pub struct SkeletalPaths {
    pub thumb_touch: Seq<&'static str>,
    pub index_touch: Seq<&'static str>,
    pub index_curl: Seq<&'static str>,
    pub rest_curl: Seq<&'static str>,
}

impl View for LegacyBindings {
    type V = LegacyPaths;

    open spec fn view(&self) -> LegacyPaths {
        LegacyPaths {
            grip_pose: self.grip_pose@,
            app_menu: self.app_menu@,
            a: self.a@,
            trigger: self.trigger@,
            trigger_click: self.trigger_click@,
            squeeze: self.squeeze@,
            squeeze_click: self.squeeze_click@,
            main_xy: self.main_xy@,
            main_xy_click: self.main_xy_click@,
            main_xy_touch: self.main_xy_touch@,
            haptic: self.haptic@,
        }
    }
}

impl View for SkeletalInputBindings {
    type V = SkeletalPaths;

    open spec fn view(&self) -> SkeletalPaths {
        SkeletalPaths {
            thumb_touch: self.thumb_touch@,
            index_touch: self.index_touch@,
            index_curl: self.index_curl@,
            rest_curl: self.rest_curl@,
        }
    }
}

/// `path` after the rules from `first` on have been applied in order. A
/// rule applies to a path that holds its `from`; a rule that applies and
/// has `stop` set is the last one applied.
pub open spec fn translated(path: Seq<char>, rules: Seq<PathTranslation>, first: int) -> Seq<char>
    decreases rules.len() - first,
{
    if first < 0 || first >= rules.len() {
        path
    } else if contains_seq(path, rules[first].from@) {
        let next = replaced(path, rules[first].from@, rules[first].to@);
        if rules[first].stop {
            next
        } else {
            translated(next, rules, first + 1)
        }
    } else {
        translated(path, rules, first + 1)
    }
}

/// True when `path` is one of `legal`.
pub open spec fn is_legal(path: Seq<char>, legal: Seq<&'static str>) -> bool {
    exists|i: int| 0 <= i < legal.len() && (#[trigger] legal[i])@ == path
}

/// Rewrites an OpenVR-style binding path with the rules of a profile.
pub fn translate(path: &str, rules: &Vec<PathTranslation>) -> (r: String)
    ensures
        r@ == translated(path@, rules@, 0),
{
    let mut current = String::from_str(path);
    let mut i: usize = 0;
    while i < rules.len()
        invariant
            i <= rules.len(),
            translated(current@, rules@, i as int) == translated(path@, rules@, 0),
        decreases rules.len() - i,
    {
        let rule = rules[i];
        if contains(current.as_str(), rule.from) {
            current = replace(current.as_str(), rule.from, rule.to);
            if rule.stop {
                return current;
            }
        }
        i += 1;
    }
    current
}

/// Decides whether `path` is one of the input paths in `legal`.
pub fn legal_path(path: &str, legal: &Vec<&'static str>) -> (r: bool)
    ensures
        r == is_legal(path@, legal@),
{
    let mut i: usize = 0;
    while i < legal.len()
        invariant
            i <= legal.len(),
            forall|j: int| 0 <= j < i ==> (#[trigger] legal@[j])@ != path@,
        decreases legal.len() - i,
    {
        if str_eq(legal[i], path) {
            return true;
        }
        i += 1;
    }
    false
}

/// One of the interaction profiles that the library knows.
#[derive(Clone, Copy, Debug, PartialEq, Eq, Structural)]
pub enum Profile {
    ViveWands,
    Knuckles,
    Touch,
    SimpleController,
    HolographicController,
    SamsungOdysseyController,
    ReverbG2Controller,
    ViveFocus3,
    ViveTracker,
    VRLinkHand,
}

impl Profile {
    /// The runtime path of the profile.
    pub open spec fn path(self) -> &'static str {
        match self {
            Profile::ViveWands => ViveWands::path(),
            Profile::Knuckles => Knuckles::path(),
            Profile::Touch => Touch::path(),
            Profile::SimpleController => SimpleController::path(),
            Profile::HolographicController => HolographicController::path(),
            Profile::SamsungOdysseyController => SamsungOdysseyController::path(),
            Profile::ReverbG2Controller => ReverbG2Controller::path(),
            Profile::ViveFocus3 => ViveFocus3::path(),
            Profile::ViveTracker => ViveTracker::path(),
            Profile::VRLinkHand => VRLinkHand::path(),
        }
    }

    /// What is reported of a device that uses the profile.
    pub open spec fn device_properties(self) -> ProfileProperties {
        match self {
            Profile::ViveWands => ViveWands::device_properties(),
            Profile::Knuckles => Knuckles::device_properties(),
            Profile::Touch => Touch::device_properties(),
            Profile::SimpleController => SimpleController::device_properties(),
            Profile::HolographicController => HolographicController::device_properties(),
            Profile::SamsungOdysseyController => SamsungOdysseyController::device_properties(),
            Profile::ReverbG2Controller => ReverbG2Controller::device_properties(),
            Profile::ViveFocus3 => ViveFocus3::device_properties(),
            Profile::ViveTracker => ViveTracker::device_properties(),
            Profile::VRLinkHand => VRLinkHand::device_properties(),
        }
    }

    /// The rewrites of the profile.
    pub open spec fn translations(self) -> Seq<PathTranslation> {
        match self {
            Profile::ViveWands => ViveWands::translations(),
            Profile::Knuckles => Knuckles::translations(),
            Profile::Touch => Touch::translations(),
            Profile::SimpleController => SimpleController::translations(),
            Profile::HolographicController => HolographicController::translations(),
            Profile::SamsungOdysseyController => SamsungOdysseyController::translations(),
            Profile::ReverbG2Controller => ReverbG2Controller::translations(),
            Profile::ViveFocus3 => ViveFocus3::translations(),
            Profile::ViveTracker => ViveTracker::translations(),
            Profile::VRLinkHand => VRLinkHand::translations(),
        }
    }

    /// Every input and output path that the profile offers.
    pub open spec fn legal(self) -> Seq<&'static str> {
        match self {
            Profile::ViveWands => ViveWands::legal(),
            Profile::Knuckles => Knuckles::legal(),
            Profile::Touch => Touch::legal(),
            Profile::SimpleController => SimpleController::legal(),
            Profile::HolographicController => HolographicController::legal(),
            Profile::SamsungOdysseyController => SamsungOdysseyController::legal(),
            Profile::ReverbG2Controller => ReverbG2Controller::legal(),
            Profile::ViveFocus3 => ViveFocus3::legal(),
            Profile::ViveTracker => ViveTracker::legal(),
            Profile::VRLinkHand => VRLinkHand::legal(),
        }
    }

    /// The inputs behind the legacy action set, if the profile has any.
    pub open spec fn legacy(self) -> Option<LegacyPaths> {
        match self {
            Profile::ViveWands => ViveWands::legacy(),
            Profile::Knuckles => Knuckles::legacy(),
            Profile::Touch => Touch::legacy(),
            Profile::SimpleController => SimpleController::legacy(),
            Profile::HolographicController => HolographicController::legacy(),
            Profile::SamsungOdysseyController => SamsungOdysseyController::legacy(),
            Profile::ReverbG2Controller => ReverbG2Controller::legacy(),
            Profile::ViveFocus3 => ViveFocus3::legacy(),
            Profile::ViveTracker => ViveTracker::legacy(),
            Profile::VRLinkHand => VRLinkHand::legacy(),
        }
    }

    /// The inputs that feed the estimated hand skeleton.
    pub open spec fn skeletal(self) -> SkeletalPaths {
        match self {
            Profile::ViveWands => ViveWands::skeletal(),
            Profile::Knuckles => Knuckles::skeletal(),
            Profile::Touch => Touch::skeletal(),
            Profile::SimpleController => SimpleController::skeletal(),
            Profile::HolographicController => HolographicController::skeletal(),
            Profile::SamsungOdysseyController => SamsungOdysseyController::skeletal(),
            Profile::ReverbG2Controller => ReverbG2Controller::skeletal(),
            Profile::ViveFocus3 => ViveFocus3::skeletal(),
            Profile::ViveTracker => ViveTracker::skeletal(),
            Profile::VRLinkHand => VRLinkHand::skeletal(),
        }
    }

    /// Reads the runtime path of the profile.
    pub fn profile_path(self) -> (r: &'static str)
        ensures
            r == self.path(),
    {
        match self {
            Profile::ViveWands => ViveWands.profile_path(),
            Profile::Knuckles => Knuckles.profile_path(),
            Profile::Touch => Touch.profile_path(),
            Profile::SimpleController => SimpleController.profile_path(),
            Profile::HolographicController => HolographicController.profile_path(),
            Profile::SamsungOdysseyController => SamsungOdysseyController.profile_path(),
            Profile::ReverbG2Controller => ReverbG2Controller.profile_path(),
            Profile::ViveFocus3 => ViveFocus3.profile_path(),
            Profile::ViveTracker => ViveTracker.profile_path(),
            Profile::VRLinkHand => VRLinkHand.profile_path(),
        }
    }

    /// Reads what is reported of a device that uses the profile.
    pub fn properties(self) -> (r: ProfileProperties)
        ensures
            r == self.device_properties(),
    {
        match self {
            Profile::ViveWands => ViveWands.properties(),
            Profile::Knuckles => Knuckles.properties(),
            Profile::Touch => Touch.properties(),
            Profile::SimpleController => SimpleController.properties(),
            Profile::HolographicController => HolographicController.properties(),
            Profile::SamsungOdysseyController => SamsungOdysseyController.properties(),
            Profile::ReverbG2Controller => ReverbG2Controller.properties(),
            Profile::ViveFocus3 => ViveFocus3.properties(),
            Profile::ViveTracker => ViveTracker.properties(),
            Profile::VRLinkHand => VRLinkHand.properties(),
        }
    }

    /// Reads the rewrites of the profile.
    pub fn translate_map(self) -> (r: Vec<PathTranslation>)
        ensures
            r@ == self.translations(),
    {
        match self {
            Profile::ViveWands => ViveWands.translate_map(),
            Profile::Knuckles => Knuckles.translate_map(),
            Profile::Touch => Touch.translate_map(),
            Profile::SimpleController => SimpleController.translate_map(),
            Profile::HolographicController => HolographicController.translate_map(),
            Profile::SamsungOdysseyController => SamsungOdysseyController.translate_map(),
            Profile::ReverbG2Controller => ReverbG2Controller.translate_map(),
            Profile::ViveFocus3 => ViveFocus3.translate_map(),
            Profile::ViveTracker => ViveTracker.translate_map(),
            Profile::VRLinkHand => VRLinkHand.translate_map(),
        }
    }

    /// Reads the paths that the profile offers.
    pub fn legal_paths(self) -> (r: Vec<&'static str>)
        ensures
            r@ == self.legal(),
    {
        match self {
            Profile::ViveWands => ViveWands.legal_paths(),
            Profile::Knuckles => Knuckles.legal_paths(),
            Profile::Touch => Touch.legal_paths(),
            Profile::SimpleController => SimpleController.legal_paths(),
            Profile::HolographicController => HolographicController.legal_paths(),
            Profile::SamsungOdysseyController => SamsungOdysseyController.legal_paths(),
            Profile::ReverbG2Controller => ReverbG2Controller.legal_paths(),
            Profile::ViveFocus3 => ViveFocus3.legal_paths(),
            Profile::ViveTracker => ViveTracker.legal_paths(),
            Profile::VRLinkHand => VRLinkHand.legal_paths(),
        }
    }

    /// Reads the inputs behind the legacy action set.
    pub fn legacy_bindings(self) -> (r: Option<LegacyBindings>)
        ensures
            r.is_some() == self.legacy().is_some(),
            r.is_some() ==> r.unwrap()@ == self.legacy().unwrap(),
    {
        match self {
            Profile::ViveWands => ViveWands.legacy_bindings(),
            Profile::Knuckles => Knuckles.legacy_bindings(),
            Profile::Touch => Touch.legacy_bindings(),
            Profile::SimpleController => SimpleController.legacy_bindings(),
            Profile::HolographicController => HolographicController.legacy_bindings(),
            Profile::SamsungOdysseyController => SamsungOdysseyController.legacy_bindings(),
            Profile::ReverbG2Controller => ReverbG2Controller.legacy_bindings(),
            Profile::ViveFocus3 => ViveFocus3.legacy_bindings(),
            Profile::ViveTracker => ViveTracker.legacy_bindings(),
            Profile::VRLinkHand => VRLinkHand.legacy_bindings(),
        }
    }

    /// Reads the inputs that feed the estimated hand skeleton.
    pub fn skeletal_input_bindings(self) -> (r: SkeletalInputBindings)
        ensures
            r@ == self.skeletal(),
    {
        match self {
            Profile::ViveWands => ViveWands.skeletal_input_bindings(),
            Profile::Knuckles => Knuckles.skeletal_input_bindings(),
            Profile::Touch => Touch.skeletal_input_bindings(),
            Profile::SimpleController => SimpleController.skeletal_input_bindings(),
            Profile::HolographicController => HolographicController.skeletal_input_bindings(),
            Profile::SamsungOdysseyController => SamsungOdysseyController.skeletal_input_bindings(),
            Profile::ReverbG2Controller => ReverbG2Controller.skeletal_input_bindings(),
            Profile::ViveFocus3 => ViveFocus3.skeletal_input_bindings(),
            Profile::ViveTracker => ViveTracker.skeletal_input_bindings(),
            Profile::VRLinkHand => VRLinkHand.skeletal_input_bindings(),
        }
    }

    /// Decides whether two profiles are the same.
    pub fn same(self, other: Profile) -> (r: bool)
        ensures
            r == (self == other),
    {
        match (self, other) {
            (Profile::ViveWands, Profile::ViveWands) => true,
            (Profile::Knuckles, Profile::Knuckles) => true,
            (Profile::Touch, Profile::Touch) => true,
            (Profile::SimpleController, Profile::SimpleController) => true,
            (Profile::HolographicController, Profile::HolographicController) => true,
            (Profile::SamsungOdysseyController, Profile::SamsungOdysseyController) => true,
            (Profile::ReverbG2Controller, Profile::ReverbG2Controller) => true,
            (Profile::ViveFocus3, Profile::ViveFocus3) => true,
            (Profile::ViveTracker, Profile::ViveTracker) => true,
            (Profile::VRLinkHand, Profile::VRLinkHand) => true,
            _ => false,
        }
    }
}

/// The controller types that a binding file can be written for.
#[derive(Clone, Copy, Debug, PartialEq, Eq, Structural)]
pub enum ControllerType {
    ViveController,
    Knuckles,
    OculusTouch,
    HolographicController,
    HpMotionController,
    ViveFocus3,
    Unknown,
}

impl ControllerType {
    /// The name under which binding files refer to the controller type.
    pub open spec fn name(self) -> &'static str {
        match self {
            ControllerType::ViveController => "vive_controller",
            ControllerType::Knuckles => "knuckles",
            ControllerType::OculusTouch => "oculus_touch",
            ControllerType::HolographicController => "holographic_controller",
            ControllerType::HpMotionController => "hpmotioncontroller",
            ControllerType::ViveFocus3 => "vive_focus3_controller",
            ControllerType::Unknown => "",
        }
    }

    /// The controller type that `name` names in a binding file.
    pub open spec fn named(name: Seq<char>) -> ControllerType {
        if name == "vive_controller"@ {
            ControllerType::ViveController
        } else if name == "knuckles"@ {
            ControllerType::Knuckles
        } else if name == "oculus_touch"@ {
            ControllerType::OculusTouch
        } else if name == "holographic_controller"@ {
            ControllerType::HolographicController
        } else if name == "hpmotioncontroller"@ {
            ControllerType::HpMotionController
        } else if name == "vive_focus3_controller"@ {
            ControllerType::ViveFocus3
        } else {
            ControllerType::Unknown
        }
    }

    /// Reads a controller type from its name; a name that is not known
    /// gives `Unknown`.
    pub fn from_name(name: &str) -> (r: ControllerType)
        ensures
            r == Self::named(name@),
    {
        if str_eq(name, "vive_controller") {
            ControllerType::ViveController
        } else if str_eq(name, "knuckles") {
            ControllerType::Knuckles
        } else if str_eq(name, "oculus_touch") {
            ControllerType::OculusTouch
        } else if str_eq(name, "holographic_controller") {
            ControllerType::HolographicController
        } else if str_eq(name, "hpmotioncontroller") {
            ControllerType::HpMotionController
        } else if str_eq(name, "vive_focus3_controller") {
            ControllerType::ViveFocus3
        } else {
            ControllerType::Unknown
        }
    }

    /// Decides whether two controller types are the same.
    pub fn same(self, other: ControllerType) -> (r: bool)
        ensures
            r == (self == other),
    {
        match (self, other) {
            (ControllerType::ViveController, ControllerType::ViveController) => true,
            (ControllerType::Knuckles, ControllerType::Knuckles) => true,
            (ControllerType::OculusTouch, ControllerType::OculusTouch) => true,
            (ControllerType::HolographicController, ControllerType::HolographicController) => true,
            (ControllerType::HpMotionController, ControllerType::HpMotionController) => true,
            (ControllerType::ViveFocus3, ControllerType::ViveFocus3) => true,
            (ControllerType::Unknown, ControllerType::Unknown) => true,
            _ => false,
        }
    }
}

/// The profiles that bindings are suggested for.
pub struct Profiles;

impl Profiles {
    /// Each supported profile with the controller type whose binding file
    /// it is filled from. A binding file for Vive wands also fills the
    /// simple controller, and one for the holographic controller also fills
    /// the Samsung Odyssey controller.
    pub open spec fn list() -> Seq<(ControllerType, Profile)> {
        seq![
            (ControllerType::ViveController, Profile::ViveWands),
            (ControllerType::Knuckles, Profile::Knuckles),
            (ControllerType::OculusTouch, Profile::Touch),
            (ControllerType::ViveController, Profile::SimpleController),
            (ControllerType::HolographicController, Profile::HolographicController),
            (ControllerType::HolographicController, Profile::SamsungOdysseyController),
            (ControllerType::HpMotionController, Profile::ReverbG2Controller),
            (ControllerType::ViveFocus3, Profile::ViveFocus3),
        ]
    }

    /// The first supported profile from position `first` on whose runtime
    /// path is `name`.
    pub open spec fn named(name: Seq<char>, first: int) -> Option<Profile>
        decreases Self::list().len() - first,
    {
        if first < 0 || first >= Self::list().len() {
            None
        } else if Self::list()[first].1.path()@ == name {
            Some(Self::list()[first].1)
        } else {
            Self::named(name, first + 1)
        }
    }

    /// Reads the list of supported profiles.
    pub fn get() -> (r: Vec<(ControllerType, Profile)>)
        ensures
            r@ == Self::list(),
    {
        let r = vec![
            (ControllerType::ViveController, Profile::ViveWands),
            (ControllerType::Knuckles, Profile::Knuckles),
            (ControllerType::OculusTouch, Profile::Touch),
            (ControllerType::ViveController, Profile::SimpleController),
            (ControllerType::HolographicController, Profile::HolographicController),
            (ControllerType::HolographicController, Profile::SamsungOdysseyController),
            (ControllerType::HpMotionController, Profile::ReverbG2Controller),
            (ControllerType::ViveFocus3, Profile::ViveFocus3),
        ];
        assert(r@ =~= Self::list());
        r
    }

    /// Reads the supported profiles without their controller types.
    pub fn profiles_iter() -> (r: Vec<Profile>)
        ensures
            r@ == Self::list().map_values(|e: (ControllerType, Profile)| e.1),
    {
        let list = Self::get();
        let mut out: Vec<Profile> = Vec::new();
        let mut i: usize = 0;
        while i < list.len()
            invariant
                i <= list.len(),
                list@ == Self::list(),
                out@ == list@.subrange(0, i as int).map_values(|e: (ControllerType, Profile)| e.1),
            decreases list.len() - i,
        {
            out.push(list[i].1);
            i += 1;
            assert(out@ =~= list@.subrange(0, i as int).map_values(
                |e: (ControllerType, Profile)| e.1,
            ));
        }
        assert(list@.subrange(0, list@.len() as int) =~= list@);
        out
    }

    /// Finds the supported profile whose runtime path is `name`.
    pub fn profile_from_name(name: &str) -> (r: Option<Profile>)
        ensures
            r == Self::named(name@, 0),
    {
        let list = Self::get();
        let mut i: usize = 0;
        while i < list.len()
            invariant
                i <= list.len(),
                list@ == Self::list(),
                Self::named(name@, 0) == Self::named(name@, i as int),
            decreases list.len() - i,
        {
            if str_eq(list[i].1.profile_path(), name) {
                return Some(list[i].1);
            }
            i += 1;
        }
        None
    }
}

} // verus!
