//! The Valve Index controller.

use crate::profiles::LegacyBindings;
use crate::profiles::LegacyPaths;
use crate::profiles::MainAxisType;
use crate::profiles::PathTranslation;
use crate::profiles::ProfileProperties;
use crate::profiles::Property;
use crate::profiles::SkeletalInputBindings;
use crate::profiles::SkeletalPaths;
use vstd::prelude::*;

verus! {

pub struct Knuckles;

impl Knuckles {
    /// The runtime path of the profile.
    pub open spec fn path() -> &'static str {
        "/interaction_profiles/valve/index_controller"
    }

    /// What is reported of a device that uses the profile.
    pub open spec fn device_properties() -> ProfileProperties {
        ProfileProperties {
            model: Property::PerHand { left: "Knuckles Left", right: "Knuckles Right" },
            openvr_controller_type: "knuckles",
            render_model_name: Property::PerHand { left: "{indexcontroller}valve_controller_knu_1_0_left", right: "{indexcontroller}valve_controller_knu_1_0_right" },
            main_axis: MainAxisType::Thumbstick,
            registered_device_type: Property::PerHand { left: "valve/index_controllerLHR-FFFFFFF1", right: "valve/index_controllerLHR-FFFFFFF2" },
            serial_number: Property::PerHand { left: "LHR-FFFFFFF1", right: "LHR-FFFFFFF2" },
            tracking_system_name: "lighthouse",
            manufacturer_name: "Valve",
            legacy_buttons_mask: 0x700000087,
        }
    }

    /// The rewrites that turn a binding path into an input path of the profile.
    pub open spec fn translations() -> Seq<PathTranslation> {
        seq![
            PathTranslation { from: "pull", to: "value", stop: false },
            PathTranslation { from: "input/grip", to: "input/squeeze", stop: false },
            PathTranslation { from: "squeeze/click", to: "squeeze/value", stop: true },
            PathTranslation { from: "squeeze/touch", to: "squeeze/value", stop: true },
            PathTranslation { from: "squeeze/grab", to: "squeeze/force", stop: true },
            PathTranslation { from: "trackpad/click", to: "trackpad/force", stop: true },
        ]
    }

    /// Every input and output path that the profile offers.
    pub open spec fn legal() -> Seq<&'static str> {
        seq![
            "/user/hand/left/input/a/click",
            "/user/hand/right/input/a/click",
            "/user/hand/left/input/a/touch",
            "/user/hand/right/input/a/touch",
            "/user/hand/left/input/b/click",
            "/user/hand/right/input/b/click",
            "/user/hand/left/input/b/touch",
            "/user/hand/right/input/b/touch",
            "/user/hand/left/input/trigger/click",
            "/user/hand/right/input/trigger/click",
            "/user/hand/left/input/trigger/touch",
            "/user/hand/right/input/trigger/touch",
            "/user/hand/left/input/thumbstick/click",
            "/user/hand/right/input/thumbstick/click",
            "/user/hand/left/input/thumbstick/touch",
            "/user/hand/right/input/thumbstick/touch",
            "/user/hand/left/input/thumbstick/x",
            "/user/hand/right/input/thumbstick/x",
            "/user/hand/left/input/thumbstick/y",
            "/user/hand/right/input/thumbstick/y",
            "/user/hand/left/input/thumbstick",
            "/user/hand/right/input/thumbstick",
            "/user/hand/left/input/trackpad/x",
            "/user/hand/right/input/trackpad/x",
            "/user/hand/left/input/trackpad/y",
            "/user/hand/right/input/trackpad/y",
            "/user/hand/left/input/trackpad",
            "/user/hand/right/input/trackpad",
            "/user/hand/left/input/squeeze/value",
            "/user/hand/right/input/squeeze/value",
            "/user/hand/left/input/squeeze/force",
            "/user/hand/right/input/squeeze/force",
            "/user/hand/left/input/trigger/value",
            "/user/hand/right/input/trigger/value",
            "/user/hand/left/input/trackpad/force",
            "/user/hand/right/input/trackpad/force",
            "/user/hand/left/input/trackpad/touch",
            "/user/hand/right/input/trackpad/touch",
            "/user/hand/left/input/grip/pose",
            "/user/hand/right/input/grip/pose",
            "/user/hand/left/input/aim/pose",
            "/user/hand/right/input/aim/pose",
            "/user/hand/left/output/haptic",
            "/user/hand/right/output/haptic",
        ]
    }

    /// The inputs behind the legacy action set, if the profile has any.
    pub open spec fn legacy() -> Option<LegacyPaths> {
        Some(
            LegacyPaths {
                grip_pose: seq![
                    "/user/hand/left/input/grip/pose",
                    "/user/hand/right/input/grip/pose",
                ],
                app_menu: seq![
                    "/user/hand/left/input/b/click",
                    "/user/hand/right/input/b/click",
                ],
                a: seq![
                    "/user/hand/left/input/a/click",
                    "/user/hand/right/input/a/click",
                ],
                trigger: seq![
                    "/user/hand/left/input/trigger/value",
                    "/user/hand/right/input/trigger/value",
                ],
                trigger_click: seq![
                    "/user/hand/left/input/trigger/click",
                    "/user/hand/right/input/trigger/click",
                ],
                squeeze: seq![
                    "/user/hand/left/input/squeeze/value",
                    "/user/hand/right/input/squeeze/value",
                ],
                squeeze_click: seq![
                    "/user/hand/left/input/squeeze/value",
                    "/user/hand/right/input/squeeze/value",
                ],
                main_xy: seq![
                    "/user/hand/left/input/thumbstick",
                    "/user/hand/right/input/thumbstick",
                ],
                main_xy_click: seq![
                    "/user/hand/left/input/thumbstick/click",
                    "/user/hand/right/input/thumbstick/click",
                ],
                main_xy_touch: seq![
                    "/user/hand/left/input/thumbstick/touch",
                    "/user/hand/right/input/thumbstick/touch",
                ],
                haptic: seq![
                    "/user/hand/left/output/haptic",
                    "/user/hand/right/output/haptic",
                ],
            },
        )
    }

    /// The inputs that feed the estimated hand skeleton.
    pub open spec fn skeletal() -> SkeletalPaths {
        SkeletalPaths {
            thumb_touch: seq![
                "/user/hand/left/input/thumbstick/touch",
                "/user/hand/right/input/thumbstick/touch",
                "/user/hand/left/input/trackpad/touch",
                "/user/hand/right/input/trackpad/touch",
            ],
            index_touch: seq![
                "/user/hand/left/input/trigger/touch",
                "/user/hand/right/input/trigger/touch",
            ],
            index_curl: seq![
                "/user/hand/left/input/trigger/value",
                "/user/hand/right/input/trigger/value",
            ],
            rest_curl: seq![
                "/user/hand/left/input/squeeze/value",
                "/user/hand/right/input/squeeze/value",
            ],
        }
    }

    pub fn profile_path(&self) -> (r: &'static str)
        ensures
            r == Self::path(),
    {
        "/interaction_profiles/valve/index_controller"
    }

    pub fn properties(&self) -> (r: ProfileProperties)
        ensures
            r == Self::device_properties(),
    {
        ProfileProperties {
            model: Property::PerHand { left: "Knuckles Left", right: "Knuckles Right" },
            openvr_controller_type: "knuckles",
            render_model_name: Property::PerHand { left: "{indexcontroller}valve_controller_knu_1_0_left", right: "{indexcontroller}valve_controller_knu_1_0_right" },
            main_axis: MainAxisType::Thumbstick,
            registered_device_type: Property::PerHand { left: "valve/index_controllerLHR-FFFFFFF1", right: "valve/index_controllerLHR-FFFFFFF2" },
            serial_number: Property::PerHand { left: "LHR-FFFFFFF1", right: "LHR-FFFFFFF2" },
            tracking_system_name: "lighthouse",
            manufacturer_name: "Valve",
            legacy_buttons_mask: 0x700000087,
        }
    }

    pub fn translate_map(&self) -> (r: Vec<PathTranslation>)
        ensures
            r@ == Self::translations(),
    {
        let r: Vec<PathTranslation> = vec![
            PathTranslation { from: "pull", to: "value", stop: false },
            PathTranslation { from: "input/grip", to: "input/squeeze", stop: false },
            PathTranslation { from: "squeeze/click", to: "squeeze/value", stop: true },
            PathTranslation { from: "squeeze/touch", to: "squeeze/value", stop: true },
            PathTranslation { from: "squeeze/grab", to: "squeeze/force", stop: true },
            PathTranslation { from: "trackpad/click", to: "trackpad/force", stop: true },
        ];
        assert(r@ =~= Self::translations());
        r
    }

    pub fn legal_paths(&self) -> (r: Vec<&'static str>)
        ensures
            r@ == Self::legal(),
    {
        let r: Vec<&'static str> = vec![
            "/user/hand/left/input/a/click",
            "/user/hand/right/input/a/click",
            "/user/hand/left/input/a/touch",
            "/user/hand/right/input/a/touch",
            "/user/hand/left/input/b/click",
            "/user/hand/right/input/b/click",
            "/user/hand/left/input/b/touch",
            "/user/hand/right/input/b/touch",
            "/user/hand/left/input/trigger/click",
            "/user/hand/right/input/trigger/click",
            "/user/hand/left/input/trigger/touch",
            "/user/hand/right/input/trigger/touch",
            "/user/hand/left/input/thumbstick/click",
            "/user/hand/right/input/thumbstick/click",
            "/user/hand/left/input/thumbstick/touch",
            "/user/hand/right/input/thumbstick/touch",
            "/user/hand/left/input/thumbstick/x",
            "/user/hand/right/input/thumbstick/x",
            "/user/hand/left/input/thumbstick/y",
            "/user/hand/right/input/thumbstick/y",
            "/user/hand/left/input/thumbstick",
            "/user/hand/right/input/thumbstick",
            "/user/hand/left/input/trackpad/x",
            "/user/hand/right/input/trackpad/x",
            "/user/hand/left/input/trackpad/y",
            "/user/hand/right/input/trackpad/y",
            "/user/hand/left/input/trackpad",
            "/user/hand/right/input/trackpad",
            "/user/hand/left/input/squeeze/value",
            "/user/hand/right/input/squeeze/value",
            "/user/hand/left/input/squeeze/force",
            "/user/hand/right/input/squeeze/force",
            "/user/hand/left/input/trigger/value",
            "/user/hand/right/input/trigger/value",
            "/user/hand/left/input/trackpad/force",
            "/user/hand/right/input/trackpad/force",
            "/user/hand/left/input/trackpad/touch",
            "/user/hand/right/input/trackpad/touch",
            "/user/hand/left/input/grip/pose",
            "/user/hand/right/input/grip/pose",
            "/user/hand/left/input/aim/pose",
            "/user/hand/right/input/aim/pose",
            "/user/hand/left/output/haptic",
            "/user/hand/right/output/haptic",
        ];
        assert(r@ =~= Self::legal());
        r
    }

    pub fn legacy_bindings(&self) -> (r: Option<LegacyBindings>)
        ensures
            r.is_some() == Self::legacy().is_some(),
            r.is_some() ==> r.unwrap()@ == Self::legacy().unwrap(),
    {
        let b = LegacyBindings {
            grip_pose: vec![
                "/user/hand/left/input/grip/pose",
                "/user/hand/right/input/grip/pose",
            ],
            app_menu: vec![
                "/user/hand/left/input/b/click",
                "/user/hand/right/input/b/click",
            ],
            a: vec![
                "/user/hand/left/input/a/click",
                "/user/hand/right/input/a/click",
            ],
            trigger: vec![
                "/user/hand/left/input/trigger/value",
                "/user/hand/right/input/trigger/value",
            ],
            trigger_click: vec![
                "/user/hand/left/input/trigger/click",
                "/user/hand/right/input/trigger/click",
            ],
            squeeze: vec![
                "/user/hand/left/input/squeeze/value",
                "/user/hand/right/input/squeeze/value",
            ],
            squeeze_click: vec![
                "/user/hand/left/input/squeeze/value",
                "/user/hand/right/input/squeeze/value",
            ],
            main_xy: vec![
                "/user/hand/left/input/thumbstick",
                "/user/hand/right/input/thumbstick",
            ],
            main_xy_click: vec![
                "/user/hand/left/input/thumbstick/click",
                "/user/hand/right/input/thumbstick/click",
            ],
            main_xy_touch: vec![
                "/user/hand/left/input/thumbstick/touch",
                "/user/hand/right/input/thumbstick/touch",
            ],
            haptic: vec![
                "/user/hand/left/output/haptic",
                "/user/hand/right/output/haptic",
            ],
        };
        proof {
            let m = Self::legacy().unwrap();
            assert(b.grip_pose@ =~= m.grip_pose);
            assert(b.app_menu@ =~= m.app_menu);
            assert(b.a@ =~= m.a);
            assert(b.trigger@ =~= m.trigger);
            assert(b.trigger_click@ =~= m.trigger_click);
            assert(b.squeeze@ =~= m.squeeze);
            assert(b.squeeze_click@ =~= m.squeeze_click);
            assert(b.main_xy@ =~= m.main_xy);
            assert(b.main_xy_click@ =~= m.main_xy_click);
            assert(b.main_xy_touch@ =~= m.main_xy_touch);
            assert(b.haptic@ =~= m.haptic);
        }
        Some(b)
    }

    pub fn skeletal_input_bindings(&self) -> (r: SkeletalInputBindings)
        ensures
            r@ == Self::skeletal(),
    {
        let b = SkeletalInputBindings {
            thumb_touch: vec![
                "/user/hand/left/input/thumbstick/touch",
                "/user/hand/right/input/thumbstick/touch",
                "/user/hand/left/input/trackpad/touch",
                "/user/hand/right/input/trackpad/touch",
            ],
            index_touch: vec![
                "/user/hand/left/input/trigger/touch",
                "/user/hand/right/input/trigger/touch",
            ],
            index_curl: vec![
                "/user/hand/left/input/trigger/value",
                "/user/hand/right/input/trigger/value",
            ],
            rest_curl: vec![
                "/user/hand/left/input/squeeze/value",
                "/user/hand/right/input/squeeze/value",
            ],
        };
        proof {
            let m = Self::skeletal();
            assert(b.thumb_touch@ =~= m.thumb_touch);
            assert(b.index_touch@ =~= m.index_touch);
            assert(b.index_curl@ =~= m.index_curl);
            assert(b.rest_curl@ =~= m.rest_curl);
        }
        b
    }
}

} // verus!
