//! The Khronos simple controller, which every runtime offers.

use crate::profiles::LegacyBindings;
use crate::profiles::LegacyPaths;
use crate::profiles::MainAxisType;
use crate::profiles::PathTranslation;
use crate::profiles::ProfileProperties;
use crate::profiles::Property;
use crate::profiles::SkeletalInputBindings;
use crate::profiles::SkeletalPaths;
use vstd::prelude::*;

verus! {

pub struct SimpleController;

impl SimpleController {
    /// The runtime path of the profile.
    pub open spec fn path() -> &'static str {
        "/interaction_profiles/khr/simple_controller"
    }

    /// What is reported of a device that uses the profile.
    pub open spec fn device_properties() -> ProfileProperties {
        ProfileProperties {
            model: Property::BothHands("generic"),
            openvr_controller_type: "<unknown>",
            render_model_name: Property::BothHands("generic_controller"),
            main_axis: MainAxisType::Thumbstick,
            registered_device_type: Property::PerHand { left: "htc/vive_controllerLHR-00000001", right: "htc/vive_controllerLHR-00000002" },
            serial_number: Property::PerHand { left: "LHR-00000001", right: "LHR-00000002" },
            tracking_system_name: "lighthouse",
            manufacturer_name: "HTC",
            legacy_buttons_mask: 0x300000007,
        }
    }

    /// The rewrites that turn a binding path into an input path of the profile.
    pub open spec fn translations() -> Seq<PathTranslation> {
        seq![
            PathTranslation { from: "trigger", to: "select", stop: true },
            PathTranslation { from: "application_menu", to: "menu", stop: true },
        ]
    }

    /// Every input and output path that the profile offers.
    pub open spec fn legal() -> Seq<&'static str> {
        seq![
            "/user/hand/left/input/select/click",
            "/user/hand/right/input/select/click",
            "/user/hand/left/input/menu/click",
            "/user/hand/right/input/menu/click",
            "/user/hand/left/input/grip/pose",
            "/user/hand/right/input/grip/pose",
            "/user/hand/left/input/aim/pose",
            "/user/hand/right/input/aim/pose",
            "/user/hand/left/output/haptic",
            "/user/hand/right/output/haptic",
        ]
    }

    /// The inputs behind the legacy action set, if the profile has any.
    pub open spec fn legacy() -> Option<LegacyPaths> {
        Some(
            LegacyPaths {
                grip_pose: seq![
                    "/user/hand/left/input/grip/pose",
                    "/user/hand/right/input/grip/pose",
                ],
                app_menu: seq![
                    "/user/hand/left/input/menu/click",
                    "/user/hand/right/input/menu/click",
                ],
                a: Seq::empty(),
                trigger: seq![
                    "/user/hand/left/input/select/click",
                    "/user/hand/right/input/select/click",
                ],
                trigger_click: seq![
                    "/user/hand/left/input/select/click",
                    "/user/hand/right/input/select/click",
                ],
                squeeze: seq![
                    "/user/hand/left/input/menu/click",
                    "/user/hand/right/input/menu/click",
                ],
                squeeze_click: seq![
                    "/user/hand/left/input/menu/click",
                    "/user/hand/right/input/menu/click",
                ],
                main_xy: Seq::empty(),
                main_xy_click: Seq::empty(),
                main_xy_touch: Seq::empty(),
                haptic: seq![
                    "/user/hand/left/output/haptic",
                    "/user/hand/right/output/haptic",
                ],
            },
        )
    }

    /// The inputs that feed the estimated hand skeleton.
    pub open spec fn skeletal() -> SkeletalPaths {
        SkeletalPaths {
            thumb_touch: Seq::empty(),
            index_touch: seq![
                "/user/hand/left/input/select/click",
                "/user/hand/right/input/select/click",
            ],
            index_curl: seq![
                "/user/hand/left/input/select/click",
                "/user/hand/right/input/select/click",
            ],
            rest_curl: seq![
                "/user/hand/left/input/menu/click",
                "/user/hand/right/input/menu/click",
            ],
        }
    }

    pub fn profile_path(&self) -> (r: &'static str)
        ensures
            r == Self::path(),
    {
        "/interaction_profiles/khr/simple_controller"
    }

    pub fn properties(&self) -> (r: ProfileProperties)
        ensures
            r == Self::device_properties(),
    {
        ProfileProperties {
            model: Property::BothHands("generic"),
            openvr_controller_type: "<unknown>",
            render_model_name: Property::BothHands("generic_controller"),
            main_axis: MainAxisType::Thumbstick,
            registered_device_type: Property::PerHand { left: "htc/vive_controllerLHR-00000001", right: "htc/vive_controllerLHR-00000002" },
            serial_number: Property::PerHand { left: "LHR-00000001", right: "LHR-00000002" },
            tracking_system_name: "lighthouse",
            manufacturer_name: "HTC",
            legacy_buttons_mask: 0x300000007,
        }
    }

    pub fn translate_map(&self) -> (r: Vec<PathTranslation>)
        ensures
            r@ == Self::translations(),
    {
        let r: Vec<PathTranslation> = vec![
            PathTranslation { from: "trigger", to: "select", stop: true },
            PathTranslation { from: "application_menu", to: "menu", stop: true },
        ];
        assert(r@ =~= Self::translations());
        r
    }

    pub fn legal_paths(&self) -> (r: Vec<&'static str>)
        ensures
            r@ == Self::legal(),
    {
        let r: Vec<&'static str> = vec![
            "/user/hand/left/input/select/click",
            "/user/hand/right/input/select/click",
            "/user/hand/left/input/menu/click",
            "/user/hand/right/input/menu/click",
            "/user/hand/left/input/grip/pose",
            "/user/hand/right/input/grip/pose",
            "/user/hand/left/input/aim/pose",
            "/user/hand/right/input/aim/pose",
            "/user/hand/left/output/haptic",
            "/user/hand/right/output/haptic",
        ];
        assert(r@ =~= Self::legal());
        r
    }

    pub fn legacy_bindings(&self) -> (r: Option<LegacyBindings>)
        ensures
            r.is_some() == Self::legacy().is_some(),
            r.is_some() ==> r.unwrap()@ == Self::legacy().unwrap(),
    {
        let b = LegacyBindings {
            grip_pose: vec![
                "/user/hand/left/input/grip/pose",
                "/user/hand/right/input/grip/pose",
            ],
            app_menu: vec![
                "/user/hand/left/input/menu/click",
                "/user/hand/right/input/menu/click",
            ],
            a: Vec::new(),
            trigger: vec![
                "/user/hand/left/input/select/click",
                "/user/hand/right/input/select/click",
            ],
            trigger_click: vec![
                "/user/hand/left/input/select/click",
                "/user/hand/right/input/select/click",
            ],
            squeeze: vec![
                "/user/hand/left/input/menu/click",
                "/user/hand/right/input/menu/click",
            ],
            squeeze_click: vec![
                "/user/hand/left/input/menu/click",
                "/user/hand/right/input/menu/click",
            ],
            main_xy: Vec::new(),
            main_xy_click: Vec::new(),
            main_xy_touch: Vec::new(),
            haptic: vec![
                "/user/hand/left/output/haptic",
                "/user/hand/right/output/haptic",
            ],
        };
        proof {
            let m = Self::legacy().unwrap();
            assert(b.grip_pose@ =~= m.grip_pose);
            assert(b.app_menu@ =~= m.app_menu);
            assert(b.a@ =~= m.a);
            assert(b.trigger@ =~= m.trigger);
            assert(b.trigger_click@ =~= m.trigger_click);
            assert(b.squeeze@ =~= m.squeeze);
            assert(b.squeeze_click@ =~= m.squeeze_click);
            assert(b.main_xy@ =~= m.main_xy);
            assert(b.main_xy_click@ =~= m.main_xy_click);
            assert(b.main_xy_touch@ =~= m.main_xy_touch);
            assert(b.haptic@ =~= m.haptic);
        }
        Some(b)
    }

    pub fn skeletal_input_bindings(&self) -> (r: SkeletalInputBindings)
        ensures
            r@ == Self::skeletal(),
    {
        let b = SkeletalInputBindings {
            thumb_touch: Vec::new(),
            index_touch: vec![
                "/user/hand/left/input/select/click",
                "/user/hand/right/input/select/click",
            ],
            index_curl: vec![
                "/user/hand/left/input/select/click",
                "/user/hand/right/input/select/click",
            ],
            rest_curl: vec![
                "/user/hand/left/input/menu/click",
                "/user/hand/right/input/menu/click",
            ],
        };
        proof {
            let m = Self::skeletal();
            assert(b.thumb_touch@ =~= m.thumb_touch);
            assert(b.index_touch@ =~= m.index_touch);
            assert(b.index_curl@ =~= m.index_curl);
            assert(b.rest_curl@ =~= m.rest_curl);
        }
        b
    }
}

} // verus!
