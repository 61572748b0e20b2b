//! A tracked hand, reported as a VRLink hand tracker. It has no inputs.

use crate::profiles::LegacyBindings;
use crate::profiles::LegacyPaths;
use crate::profiles::MainAxisType;
use crate::profiles::PathTranslation;
use crate::profiles::ProfileProperties;
use crate::profiles::Property;
use crate::profiles::SkeletalInputBindings;
use crate::profiles::SkeletalPaths;
use vstd::prelude::*;

verus! {

pub struct VRLinkHand;

impl VRLinkHand {
    /// The runtime path of the profile.
    pub open spec fn path() -> &'static str {
        "/interaction_profiles/ext/hand_interaction_ext"
    }

    /// What is reported of a device that uses the profile.
    pub open spec fn device_properties() -> ProfileProperties {
        ProfileProperties {
            model: Property::PerHand { left: "VRLink Hand Tracker (Left Hand)", right: "VRLink Hand Tracker (Right Hand)" },
            openvr_controller_type: "svl_hand_interaction_augmented",
            render_model_name: Property::BothHands("{vrlink}/rendermodels/shuttlecock"),
            main_axis: MainAxisType::Thumbstick,
            registered_device_type: Property::PerHand { left: "vrlink/VRLINKQ_HandTracker_Left", right: "vrlink/VRLINKQ_HandTracker_Right" },
            serial_number: Property::PerHand { left: "VRLINKQ_Hand_Left", right: "VRLINKQ_Hand_Right" },
            tracking_system_name: "vrlink",
            manufacturer_name: "VRLink",
            legacy_buttons_mask: 0x700000087,
        }
    }

    /// The rewrites that turn a binding path into an input path of the profile.
    pub open spec fn translations() -> Seq<PathTranslation> {
        Seq::empty()
    }

    /// Every input and output path that the profile offers.
    pub open spec fn legal() -> Seq<&'static str> {
        Seq::empty()
    }

    /// The inputs behind the legacy action set, if the profile has any.
    pub open spec fn legacy() -> Option<LegacyPaths> {
        None
    }

    /// The inputs that feed the estimated hand skeleton.
    pub open spec fn skeletal() -> SkeletalPaths {
        SkeletalPaths {
            thumb_touch: Seq::empty(),
            index_touch: Seq::empty(),
            index_curl: Seq::empty(),
            rest_curl: Seq::empty(),
        }
    }

    pub fn profile_path(&self) -> (r: &'static str)
        ensures
            r == Self::path(),
    {
        "/interaction_profiles/ext/hand_interaction_ext"
    }

    pub fn properties(&self) -> (r: ProfileProperties)
        ensures
            r == Self::device_properties(),
    {
        ProfileProperties {
            model: Property::PerHand { left: "VRLink Hand Tracker (Left Hand)", right: "VRLink Hand Tracker (Right Hand)" },
            openvr_controller_type: "svl_hand_interaction_augmented",
            render_model_name: Property::BothHands("{vrlink}/rendermodels/shuttlecock"),
            main_axis: MainAxisType::Thumbstick,
            registered_device_type: Property::PerHand { left: "vrlink/VRLINKQ_HandTracker_Left", right: "vrlink/VRLINKQ_HandTracker_Right" },
            serial_number: Property::PerHand { left: "VRLINKQ_Hand_Left", right: "VRLINKQ_Hand_Right" },
            tracking_system_name: "vrlink",
            manufacturer_name: "VRLink",
            legacy_buttons_mask: 0x700000087,
        }
    }

    pub fn translate_map(&self) -> (r: Vec<PathTranslation>)
        ensures
            r@ == Self::translations(),
    {
        let r: Vec<PathTranslation> = Vec::new();
        assert(r@ =~= Self::translations());
        r
    }

    pub fn legal_paths(&self) -> (r: Vec<&'static str>)
        ensures
            r@ == Self::legal(),
    {
        let r: Vec<&'static str> = Vec::new();
        assert(r@ =~= Self::legal());
        r
    }

    pub fn legacy_bindings(&self) -> (r: Option<LegacyBindings>)
        ensures
            r.is_some() == Self::legacy().is_some(),
            r.is_some() ==> r.unwrap()@ == Self::legacy().unwrap(),
    {
        None
    }

    pub fn skeletal_input_bindings(&self) -> (r: SkeletalInputBindings)
        ensures
            r@ == Self::skeletal(),
    {
        let b = SkeletalInputBindings {
            thumb_touch: Vec::new(),
            index_touch: Vec::new(),
            index_curl: Vec::new(),
            rest_curl: Vec::new(),
        };
        proof {
            let m = Self::skeletal();
            assert(b.thumb_touch@ =~= m.thumb_touch);
            assert(b.index_touch@ =~= m.index_touch);
            assert(b.index_curl@ =~= m.index_curl);
            assert(b.rest_curl@ =~= m.rest_curl);
        }
        b
    }
}

} // verus!
