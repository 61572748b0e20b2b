use xrizer::legacy::{button_mask_from_ids, EVRButtonId};
use xrizer::profiles::{legal_path, translate, ControllerType, MainAxisType, Profiles};
use std::collections::BTreeMap;
use xrizer::action_manifest::{
    ActionEntry, ActionKind, ActionManifest, ActionSetBinding, ActionSetEntry, ActionType,
    DefaultBinding, DpadSubMode, LoadedActions, Localization, Parameters, SimpleBinding,
    SourceBinding, SourceInputs, SourceMode,
};
use xrizer::custom_bindings::{BindingType, DpadActions, ExtraActionData};
use xrizer::devices::{DeviceSpace, PoseLookup, TrackedDevicePose, TrackingUniverseOrigin};
use xrizer::error::InputError;
use xrizer::fixed::Fixed;
use xrizer::input::{
    ActiveActionSet, FrameAction, Input, InputAnalogActionData, InputDigitalActionData,
};
use xrizer::profiles::Profile;
use xrizer::runtime::{ActionState, ActionValue, Hand, Snapshot, Vector2};

#[allow(dead_code)]
fn fx(v: f32) -> Fixed {
    Fixed::from_raw((v as f64 * 4294967296.0).round() as i64)
}

#[allow(dead_code)]
#[derive(Clone, Copy, PartialEq, Debug)]
enum Val {
    Bool(bool),
    Float(f32),
    Vec2(f32, f32),
    Pose(bool),
}

#[allow(dead_code)]
fn hand_key(hand: Hand) -> u8 {
    match hand {
        Hand::Left => 0,
        Hand::Right => 1,
    }
}

/// A stand-in for the runtime: it holds what each action reports for each
/// hand, and a sync turns that into a snapshot. An action is active for a
/// hand once a value was set for it; the null path reports the larger of
/// both hands.
#[allow(dead_code)]
struct FakeRuntime {
    current: BTreeMap<(u32, u8), Val>,
    synced: BTreeMap<(u32, u8), Val>,
}

#[allow(dead_code)]
impl FakeRuntime {
    fn new() -> Self {
        FakeRuntime { current: BTreeMap::new(), synced: BTreeMap::new() }
    }

    fn set(&mut self, action: u32, value: Val, hand: Hand) {
        self.current.insert((action, hand_key(hand)), value);
    }

    fn zero(v: Val) -> Val {
        match v {
            Val::Bool(_) => Val::Bool(false),
            Val::Float(_) => Val::Float(0.0),
            Val::Vec2(..) => Val::Vec2(0.0, 0.0),
            Val::Pose(_) => Val::Pose(false),
        }
    }

    fn larger(a: Val, b: Val) -> Val {
        match (a, b) {
            (Val::Bool(x), Val::Bool(y)) => Val::Bool(x || y),
            (Val::Float(x), Val::Float(y)) => Val::Float(if y.abs() > x.abs() { y } else { x }),
            (Val::Vec2(x0, y0), Val::Vec2(x1, y1)) => {
                if x1.hypot(y1) > x0.hypot(y0) {
                    Val::Vec2(x1, y1)
                } else {
                    Val::Vec2(x0, y0)
                }
            }
            (Val::Pose(x), Val::Pose(y)) => Val::Pose(x || y),
            (a, _) => a,
        }
    }

    fn value(v: Val, changed: bool) -> ActionValue {
        match v {
            Val::Bool(b) => ActionValue::Bool(ActionState {
                current_state: b,
                changed_since_last_sync: changed,
                last_change_time: 0,
                is_active: true,
            }),
            Val::Float(f) => ActionValue::Float(ActionState {
                current_state: fx(f),
                changed_since_last_sync: changed,
                last_change_time: 0,
                is_active: true,
            }),
            Val::Vec2(x, y) => ActionValue::Vector2(ActionState {
                current_state: Vector2 { x: fx(x), y: fx(y) },
                changed_since_last_sync: changed,
                last_change_time: 0,
                is_active: true,
            }),
            Val::Pose(active) => ActionValue::Pose(active),
        }
    }

    fn combined(map: &BTreeMap<(u32, u8), Val>, action: u32) -> Option<Val> {
        match (map.get(&(action, 0)), map.get(&(action, 1))) {
            (Some(a), Some(b)) => Some(Self::larger(*a, *b)),
            (Some(a), None) => Some(*a),
            (None, Some(b)) => Some(*b),
            (None, None) => None,
        }
    }

    fn sync(&mut self) -> Snapshot {
        let mut snapshot = Snapshot::new();
        let mut actions: Vec<u32> = Vec::new();
        for ((action, hand), value) in self.current.iter() {
            let before = self.synced.get(&(*action, *hand)).copied().unwrap_or(Self::zero(*value));
            let hand = if *hand == 0 { Hand::Left } else { Hand::Right };
            snapshot.record(*action, Some(hand), Self::value(*value, before != *value));
            if !actions.contains(action) {
                actions.push(*action);
            }
        }
        for action in actions {
            let now = Self::combined(&self.current, action).unwrap();
            let before = Self::combined(&self.synced, action).unwrap_or(Self::zero(now));
            snapshot.record(action, None, Self::value(now, before != now));
        }
        self.synced = self.current.clone();
        snapshot
    }
}

#[allow(dead_code)]
fn no_inputs() -> SourceInputs {
    SourceInputs {
        click: None,
        touch: None,
        pull: None,
        force: None,
        position: None,
        grab: None,
        north: None,
        east: None,
        south: None,
        west: None,
        center: None,
    }
}

#[allow(dead_code)]
fn no_parameters() -> Parameters {
    Parameters {
        sub_mode: None,
        click_activate_threshold: None,
        click_deactivate_threshold: None,
        value_hold_threshold: None,
        value_release_threshold: None,
    }
}

#[allow(dead_code)]
fn thresholds() -> Parameters {
    Parameters {
        click_activate_threshold: Some(fx(0.25)),
        click_deactivate_threshold: Some(fx(0.20)),
        ..no_parameters()
    }
}

#[allow(dead_code)]
fn out(name: &str) -> Option<String> {
    Some(name.to_string())
}

#[allow(dead_code)]
fn source(path: &str, mode: SourceMode, inputs: SourceInputs, parameters: Parameters) -> SourceBinding {
    SourceBinding { path: path.to_string(), mode, inputs, parameters }
}

#[allow(dead_code)]
fn simple(output: &str, path: &str) -> SimpleBinding {
    SimpleBinding { output: output.to_string(), path: path.to_string() }
}

#[allow(dead_code)]
fn action(name: &str, ty: ActionType) -> ActionEntry {
    ActionEntry { name: name.to_string(), ty, skeleton: None }
}

#[allow(dead_code)]
fn skeleton(name: &str, hand: &str) -> ActionEntry {
    ActionEntry {
        name: name.to_string(),
        ty: ActionType::Skeleton,
        skeleton: Some(format!("/skeleton/hand/{hand}")),
    }
}

#[allow(dead_code)]
fn bindings_for(controller_type: &str, sets: Vec<ActionSetBinding>) -> DefaultBinding {
    DefaultBinding {
        controller_type: controller_type.to_string(),
        binding_url: format!("{controller_type}.json"),
        bindings: Some(sets),
    }
}

#[allow(dead_code)]
fn set_binding(set: &str, sources: Vec<SourceBinding>) -> ActionSetBinding {
    ActionSetBinding { set: set.to_string(), sources, poses: Vec::new(), haptics: Vec::new() }
}

#[allow(dead_code)]
fn manifest(sets: &[&str], actions: Vec<ActionEntry>, default_bindings: Vec<DefaultBinding>) -> ActionManifest {
    ActionManifest {
        action_sets: sets.iter().map(|s| ActionSetEntry { name: s.to_string() }).collect(),
        actions,
        default_bindings,
        localization: Vec::<Localization>::new(),
    }
}

#[allow(dead_code)]
const LEFT: &str = "/user/hand/left";
#[allow(dead_code)]
const RIGHT: &str = "/user/hand/right";

#[allow(dead_code)]
struct Fixture {
    input: Input,
    rt: FakeRuntime,
    pending: Vec<(Hand, Profile)>,
    manifest: Option<ActionManifest>,
}

#[allow(dead_code)]
impl Fixture {
    fn new() -> Self {
        Fixture { input: Input::new(), rt: FakeRuntime::new(), pending: Vec::new(), manifest: None }
    }

    fn load_actions(&mut self, m: ActionManifest) {
        assert!(self.input.set_action_manifest_path("actions.json", &m).is_ok());
        self.manifest = Some(m);
    }

    fn restart_session(&mut self) {
        self.input.post_session_restart(self.manifest.as_ref()).unwrap();
        self.input.set_real_session(true);
    }

    fn get_action_handle(&mut self, name: &str) -> u64 {
        let handle = self.input.get_action_handle(name).unwrap();
        assert_ne!(handle, 0);
        handle
    }

    fn get_action_set_handle(&mut self, name: &str) -> u64 {
        let handle = self.input.get_action_set_handle(name).unwrap();
        assert_ne!(handle, 0);
        handle
    }

    fn get_input_source_handle(&mut self, name: &str) -> u64 {
        self.input.get_input_source_handle(name).unwrap()
    }

    fn set_interaction_profile(&mut self, profile: Profile, hand: Hand) {
        self.pending.push((hand, profile));
    }

    fn poll_events(&mut self) {
        let pending: Vec<(Hand, Profile)> = self.pending.drain(..).collect();
        for (hand, profile) in pending {
            self.input.set_interaction_profile(hand, 1, Some(profile));
        }
    }

    fn sync(&mut self, set: u64) {
        let sets = vec![ActiveActionSet { action_set: set, restricted_to_device: 0 }];
        assert!(self.input.update_action_state(&sets).is_ok());
        let snapshot = self.rt.sync();
        self.input.set_snapshot(snapshot);
        self.poll_events();
    }

    fn frame_start_update(&mut self) -> FrameAction {
        let action = self.input.frame_start_update();
        match action {
            FrameAction::Idle => {}
            _ => {
                let snapshot = self.rt.sync();
                self.input.set_snapshot(snapshot);
            }
        }
        action
    }

    fn loaded(&self) -> &LoadedActions {
        self.input.get_loaded_actions().expect("Actions aren't loaded")
    }

    fn index_of(&self, handle: u64) -> usize {
        self.loaded().try_get_action(handle).expect("Couldn't find action for handle")
    }

    fn get_action(&self, handle: u64) -> u32 {
        let i = self.index_of(handle);
        self.loaded().actions[i].action.expect("Couldn't get runtime action")
    }

    fn extra(&self, handle: u64) -> ExtraActionData {
        let i = self.index_of(handle);
        self.loaded().actions[i].extra
    }

    fn suggested(&self, profile: Profile, action: u32) -> Vec<String> {
        let list = self
            .loaded()
            .suggestions
            .iter()
            .find(|s| s.profile == profile)
            .expect("profile is not supported");
        list.bindings.iter().filter(|b| b.action == action).map(|b| b.path.clone()).collect()
    }

    fn verify_bindings_core(&self, profile: Profile, action: u32, name: &str, expected: &[&str]) {
        let mut expected: Vec<String> = expected.iter().map(|s| s.to_string()).collect();
        let mut found: Vec<String> = Vec::new();
        for binding in self.suggested(profile, action) {
            let position = expected.iter().position(|e| *e == binding);
            assert!(
                position.is_some() || found.contains(&binding),
                "Unexpected binding {binding} for {name}\nfound bindings: {found:#?}\nremaining bindings: {expected:#?}"
            );
            if let Some(p) = position {
                expected.remove(p);
            }
            found.push(binding);
        }
        assert!(expected.is_empty(), "Missing expected bindings for {name}: {expected:#?}");
    }

    fn verify_bindings(&mut self, kind: ActionKind, profile: Profile, name: &str, expected: &[&str]) {
        let handle = self.get_action_handle(name);
        let i = self.index_of(handle);
        assert_eq!(self.loaded().actions[i].kind, kind, "wrong kind for {name}");
        let action = self.get_action(handle);
        self.verify_bindings_core(profile, action, name, expected);
    }

    fn verify_analog_extra(&mut self, profile: Profile, name: &str, expected: &[&str]) {
        let handle = self.get_action_handle(name);
        let action = self.extra(handle).analog_action.expect("no analog extra action");
        self.verify_bindings_core(profile, action, name, expected);
    }

    fn dpad_bindings(&self, handle: u64, profile: Profile) -> Vec<(DpadActions, Hand)> {
        let i = self.index_of(handle);
        let mut found = Vec::new();
        for entry in self.loaded().actions[i].bindings.iter() {
            if entry.profile == profile {
                for b in entry.bindings.iter() {
                    if let BindingType::Dpad(d) = b.ty {
                        found.push((d.actions, b.hand));
                    }
                }
            }
        }
        found
    }

    fn dpad_action(&self, handle: u64, profile: Profile) -> DpadActions {
        let found = self.dpad_bindings(handle, profile);
        if found.len() != 1 {
            panic!("Got {} dpad bindings when one was expected", found.len());
        }
        found[0].0
    }

    fn get_bool_state(&mut self, handle: u64) -> Result<InputDigitalActionData, InputError> {
        self.input.get_digital_action_data(handle, 0)
    }

    fn get_bool_state_hand(&mut self, handle: u64, restrict: u64) -> Result<InputDigitalActionData, InputError> {
        self.input.get_digital_action_data(handle, restrict)
    }

    fn get_analog_state(&mut self, handle: u64) -> Result<InputAnalogActionData, InputError> {
        self.input.get_analog_action_data(handle, 0)
    }

    fn located(&self, value: u32) -> TrackedDevicePose {
        let mut matrix = [0u32; 12];
        matrix[3] = value;
        TrackedDevicePose::from_location(3, matrix, [0; 3], [0; 3])
    }
}

#[allow(dead_code)]
const BOOLACT: &str = "/actions/set1/in/boolact";
#[allow(dead_code)]
const BOOLACT2: &str = "/actions/set1/in/boolact2";
#[allow(dead_code)]
const BOOLACT3: &str = "/actions/set1/in/boolact3";
#[allow(dead_code)]
const VEC1ACT: &str = "/actions/set1/in/vec1act";
#[allow(dead_code)]
const VEC2ACT: &str = "/actions/set1/in/vec2act";
#[allow(dead_code)]
const VIB: &str = "/actions/set1/in/vib";

#[allow(dead_code)]
fn input(hand: &str, name: &str) -> String {
    format!("{hand}/input/{name}")
}

#[allow(dead_code)]
fn button(hand: &str, name: &str, output: &str) -> SourceBinding {
    source(
        &input(hand, name),
        SourceMode::Button,
        SourceInputs { click: out(output), ..no_inputs() },
        no_parameters(),
    )
}

#[allow(dead_code)]
fn button_with_thresholds(hand: &str, name: &str, output: &str) -> SourceBinding {
    source(
        &input(hand, name),
        SourceMode::Button,
        SourceInputs { click: out(output), ..no_inputs() },
        thresholds(),
    )
}

#[allow(dead_code)]
fn common(sources: Vec<SourceBinding>) -> Vec<ActionSetBinding> {
    vec![ActionSetBinding {
        set: "/actions/set1".to_string(),
        sources,
        poses: vec![
            simple("/actions/set1/in/pose", "/user/hand/left/pose/raw"),
            simple("/actions/set1/in/pose", "/user/hand/right/pose/raw"),
            simple("/actions/set1/in/posel", "/user/hand/left/pose/raw"),
            simple("/actions/set1/in/poser", "/user/hand/right/pose/raw"),
        ],
        haptics: vec![
            simple(VIB, "/user/hand/left/output/haptic"),
            simple(VIB, "/user/hand/right/output/haptic"),
        ],
    }]
}

#[allow(dead_code)]
fn knuckles_sources() -> Vec<SourceBinding> {
    let mut s = Vec::new();
    for hand in [LEFT, RIGHT] {
        s.push(button(hand, "a", BOOLACT));
        s.push(button(hand, "b", BOOLACT));
        s.push(source(
            &input(hand, "trigger"),
            SourceMode::Trigger,
            SourceInputs { click: out(BOOLACT), touch: out(BOOLACT), pull: out(VEC1ACT), ..no_inputs() },
            thresholds(),
        ));
        s.push(source(
            &input(hand, "thumbstick"),
            SourceMode::Joystick,
            SourceInputs { click: out(BOOLACT), touch: out(BOOLACT), position: out(VEC2ACT), ..no_inputs() },
            no_parameters(),
        ));
        s.push(source(
            &input(hand, "trackpad"),
            SourceMode::Trackpad,
            SourceInputs {
                click: out(BOOLACT),
                touch: if hand == RIGHT { out(BOOLACT) } else { None },
                position: out(VEC2ACT),
                ..no_inputs()
            },
            thresholds(),
        ));
    }
    s.push(button_with_thresholds(LEFT, "grip", BOOLACT));
    s.push(source(
        &input(LEFT, "grip"),
        SourceMode::Button,
        SourceInputs { force: out(VEC1ACT), ..no_inputs() },
        no_parameters(),
    ));
    s.push(source(
        &input(LEFT, "grip"),
        SourceMode::Grab,
        SourceInputs { grab: out(BOOLACT2), ..no_inputs() },
        no_parameters(),
    ));
    s.push(source(
        &input(RIGHT, "grip"),
        SourceMode::Trigger,
        SourceInputs { pull: out(VEC1ACT), ..no_inputs() },
        no_parameters(),
    ));
    s.push(source(
        &input(RIGHT, "grip"),
        SourceMode::Grab,
        SourceInputs { grab: out(BOOLACT), ..no_inputs() },
        Parameters {
            value_hold_threshold: Some(fx(1.16)),
            value_release_threshold: Some(fx(1.15)),
            ..no_parameters()
        },
    ));
    s
}

#[allow(dead_code)]
fn touch_sources() -> Vec<SourceBinding> {
    let mut s = vec![
        button(LEFT, "x", BOOLACT),
        button(LEFT, "y", BOOLACT),
        button(RIGHT, "a", BOOLACT),
        button(RIGHT, "b", BOOLACT),
        button(LEFT, "application_menu", BOOLACT),
        source(
            &input(RIGHT, "joystick"),
            SourceMode::Joystick,
            SourceInputs { click: out(BOOLACT), touch: out(BOOLACT), position: out(VEC2ACT), ..no_inputs() },
            no_parameters(),
        ),
        source(
            &input(LEFT, "joystick"),
            SourceMode::Joystick,
            SourceInputs { position: out(VEC2ACT), ..no_inputs() },
            no_parameters(),
        ),
        source(
            &input(LEFT, "grip"),
            SourceMode::Button,
            SourceInputs { touch: out(BOOLACT2), ..no_inputs() },
            no_parameters(),
        ),
    ];
    for hand in [LEFT, RIGHT] {
        s.push(button_with_thresholds(hand, "grip", BOOLACT));
        s.push(source(
            &input(hand, "trigger"),
            SourceMode::Trigger,
            SourceInputs { click: out(BOOLACT), pull: out(VEC1ACT), touch: out(BOOLACT3), ..no_inputs() },
            thresholds(),
        ));
    }
    s
}

#[allow(dead_code)]
fn focus3_sources() -> Vec<SourceBinding> {
    let mut s = vec![
        button(LEFT, "x", BOOLACT),
        button(LEFT, "y", BOOLACT),
        button(RIGHT, "a", BOOLACT),
        button(RIGHT, "b", BOOLACT),
        button(LEFT, "application_menu", BOOLACT),
        source(
            &input(RIGHT, "joystick"),
            SourceMode::Joystick,
            SourceInputs { click: out(BOOLACT), touch: out(BOOLACT), position: out(VEC2ACT), ..no_inputs() },
            no_parameters(),
        ),
        source(
            &input(LEFT, "joystick"),
            SourceMode::Joystick,
            SourceInputs { position: out(VEC2ACT), ..no_inputs() },
            no_parameters(),
        ),
    ];
    for hand in [LEFT, RIGHT] {
        s.push(button_with_thresholds(hand, "grip", BOOLACT));
        s.push(source(
            &input(hand, "trigger"),
            SourceMode::Trigger,
            SourceInputs { click: out(BOOLACT), pull: out(VEC1ACT), ..no_inputs() },
            thresholds(),
        ));
    }
    s
}

#[allow(dead_code)]
fn vive_sources() -> Vec<SourceBinding> {
    let mut s = Vec::new();
    for hand in [LEFT, RIGHT] {
        s.push(button(hand, "grip", BOOLACT));
        s.push(button(hand, "application_menu", BOOLACT));
        s.push(source(
            &input(hand, "trigger"),
            SourceMode::Trigger,
            SourceInputs { click: out(BOOLACT), pull: out(VEC1ACT), ..no_inputs() },
            no_parameters(),
        ));
        s.push(source(
            &input(hand, "trackpad"),
            SourceMode::Trackpad,
            SourceInputs {
                click: if hand == LEFT { out(BOOLACT) } else { None },
                touch: if hand == LEFT { out(BOOLACT) } else { None },
                position: out(VEC2ACT),
                ..no_inputs()
            },
            no_parameters(),
        ));
    }
    s.push(button(RIGHT, "grip", VEC1ACT));
    s
}

#[allow(dead_code)]
fn holographic_sources() -> Vec<SourceBinding> {
    let mut s = Vec::new();
    for hand in [LEFT, RIGHT] {
        s.push(source(
            &input(hand, "joystick"),
            SourceMode::Joystick,
            SourceInputs { click: out(BOOLACT), position: out(VEC2ACT), ..no_inputs() },
            no_parameters(),
        ));
        s.push(button(hand, "grip", BOOLACT));
        s.push(button(hand, "application_menu", BOOLACT));
        s.push(source(
            &input(hand, "trackpad"),
            SourceMode::Trackpad,
            SourceInputs { click: out(BOOLACT), touch: out(BOOLACT), position: out(VEC2ACT), ..no_inputs() },
            no_parameters(),
        ));
        s.push(source(
            &input(hand, "trigger"),
            SourceMode::Trigger,
            SourceInputs { click: out(BOOLACT), pull: out(VEC1ACT), ..no_inputs() },
            thresholds(),
        ));
    }
    s
}

#[allow(dead_code)]
fn hp_sources() -> Vec<SourceBinding> {
    let mut s = vec![
        button(LEFT, "x", BOOLACT),
        button(LEFT, "y", BOOLACT),
        button(RIGHT, "a", BOOLACT),
        button(RIGHT, "b", BOOLACT),
    ];
    for hand in [LEFT, RIGHT] {
        s.push(source(
            &input(hand, "joystick"),
            SourceMode::Joystick,
            SourceInputs { click: out(BOOLACT), position: out(VEC2ACT), ..no_inputs() },
            no_parameters(),
        ));
        s.push(button(hand, "grip", BOOLACT));
        s.push(button(hand, "application_menu", BOOLACT));
        s.push(source(
            &input(hand, "trigger"),
            SourceMode::Trigger,
            SourceInputs { click: out(BOOLACT), pull: out(VEC1ACT), ..no_inputs() },
            thresholds(),
        ));
    }
    s
}

/// The manifest that most tests load: one set with boolean, float,
/// two-axis, haptic, pose and skeleton actions, bound for every supported
/// kind of controller.
#[allow(dead_code)]
fn actions_json() -> ActionManifest {
    manifest(
        &["/actions/set1"],
        vec![
            action(BOOLACT, ActionType::Boolean),
            action(BOOLACT2, ActionType::Boolean),
            action(BOOLACT3, ActionType::Boolean),
            action(VEC1ACT, ActionType::Vector1),
            action(VEC2ACT, ActionType::Vector2),
            action(VIB, ActionType::Vibration),
            action("/actions/set1/in/pose", ActionType::Pose),
            action("/actions/set1/in/posel", ActionType::Pose),
            action("/actions/set1/in/poser", ActionType::Pose),
            skeleton("/actions/set1/in/skellyl", "left"),
            skeleton("/actions/set1/in/skellyr", "right"),
        ],
        vec![
            bindings_for("knuckles", common(knuckles_sources())),
            bindings_for("oculus_touch", common(touch_sources())),
            bindings_for("vive_controller", common(vive_sources())),
            bindings_for("holographic_controller", common(holographic_sources())),
            bindings_for("hpmotioncontroller", common(hp_sources())),
            bindings_for("vive_focus3_controller", common(focus3_sources())),
        ],
    )
}

#[allow(dead_code)]
fn dpad(path: &str, sub_mode: Option<DpadSubMode>, north: &str) -> SourceBinding {
    source(
        path,
        SourceMode::Dpad,
        SourceInputs { north: out(north), ..no_inputs() },
        Parameters { sub_mode, ..no_parameters() },
    )
}

/// Two sets, each with a boolean action on the north of the left
/// trackpad of a Vive wand.
#[allow(dead_code)]
fn actions_dpad_json() -> ActionManifest {
    manifest(
        &["/actions/set1", "/actions/set2"],
        vec![
            action("/actions/set1/in/boolact", ActionType::Boolean),
            action("/actions/set2/in/boolact", ActionType::Boolean),
        ],
        vec![bindings_for(
            "vive_controller",
            vec![
                set_binding(
                    "/actions/set1",
                    vec![dpad(&input(LEFT, "trackpad"), Some(DpadSubMode::Click), "/actions/set1/in/boolact")],
                ),
                set_binding(
                    "/actions/set2",
                    vec![dpad(&input(LEFT, "trackpad"), Some(DpadSubMode::Click), "/actions/set2/in/boolact")],
                ),
            ],
        )],
    )
}

/// A boolean action with a dpad and a plain button on a Vive wand, and a
/// grab for both hands on a Knuckles controller.
#[allow(dead_code)]
fn actions_dpad_mixed_json() -> ActionManifest {
    manifest(
        &["/actions/set1"],
        vec![action(BOOLACT, ActionType::Boolean)],
        vec![
            bindings_for(
                "vive_controller",
                vec![set_binding(
                    "/actions/set1",
                    vec![
                        dpad(&input(LEFT, "trackpad"), Some(DpadSubMode::Click), BOOLACT),
                        button(LEFT, "application_menu", BOOLACT),
                    ],
                )],
            ),
            bindings_for(
                "knuckles",
                vec![set_binding(
                    "/actions/set1",
                    vec![
                        source(
                            &input(LEFT, "grip"),
                            SourceMode::Grab,
                            SourceInputs { grab: out(BOOLACT), ..no_inputs() },
                            no_parameters(),
                        ),
                        source(
                            &input(RIGHT, "grip"),
                            SourceMode::Grab,
                            SourceInputs { grab: out(BOOLACT), ..no_inputs() },
                            no_parameters(),
                        ),
                    ],
                )],
            ),
        ],
    )
}

/// A boolean action on the north of the left trackpad of a Vive wand and
/// on the north of the left thumbstick of a Knuckles controller.
#[allow(dead_code)]
fn actions_dpad_multi_json() -> ActionManifest {
    manifest(
        &["/actions/set1"],
        vec![action(BOOLACT, ActionType::Boolean)],
        vec![
            bindings_for(
                "vive_controller",
                vec![set_binding(
                    "/actions/set1",
                    vec![dpad(&input(LEFT, "trackpad"), Some(DpadSubMode::Click), BOOLACT)],
                )],
            ),
            bindings_for(
                "knuckles",
                vec![set_binding(
                    "/actions/set1",
                    vec![dpad(&input(LEFT, "thumbstick"), Some(DpadSubMode::Click), BOOLACT)],
                )],
            ),
        ],
    )
}

/// A boolean action on the east of both thumbsticks of a Touch
/// controller.
#[allow(dead_code)]
fn actions_dpad_two_inputs_json() -> ActionManifest {
    let east = |hand: &str| {
        source(
            &input(hand, "joystick"),
            SourceMode::Dpad,
            SourceInputs { east: out(BOOLACT), ..no_inputs() },
            Parameters { sub_mode: Some(DpadSubMode::Touch), ..no_parameters() },
        )
    };
    manifest(
        &["/actions/set1"],
        vec![action(BOOLACT, ActionType::Boolean)],
        vec![bindings_for(
            "oculus_touch",
            vec![set_binding("/actions/set1", vec![east(LEFT), east(RIGHT)])],
        )],
    )
}

/// A boolean action toggled by the A button of both hands of a Knuckles
/// controller.
#[allow(dead_code)]
fn actions_toggle_json() -> ActionManifest {
    let toggle = |hand: &str| {
        source(
            &input(hand, "a"),
            SourceMode::ToggleButton,
            SourceInputs { click: out(BOOLACT), ..no_inputs() },
            no_parameters(),
        )
    };
    manifest(
        &["/actions/set1"],
        vec![action(BOOLACT, ActionType::Boolean)],
        vec![bindings_for(
            "knuckles",
            vec![set_binding("/actions/set1", vec![toggle(LEFT), toggle(RIGHT)])],
        )],
    )
}

#[test]
fn hp_motion_controller_verify_bindings() {
    let mut f = Fixture::new();
    f.load_actions(actions_json());

    let path = Profile::ReverbG2Controller;
    f.verify_bindings(
        ActionKind::Bool,
        path,
        "/actions/set1/in/boolact",
        &[
            "/user/hand/left/input/thumbstick/click",
            "/user/hand/right/input/thumbstick/click",
            "/user/hand/left/input/squeeze/click",
            "/user/hand/right/input/squeeze/click",
            "/user/hand/left/input/menu/click",
            "/user/hand/right/input/menu/click",
            "/user/hand/left/input/x/click",
            "/user/hand/left/input/y/click",
            "/user/hand/right/input/a/click",
            "/user/hand/right/input/b/click",
        ],
    );

    f.verify_analog_extra(
        path,
        "/actions/set1/in/boolact",
        &["/user/hand/left/input/trigger/value", "/user/hand/right/input/trigger/value"],
    );

    f.verify_bindings(
        ActionKind::Vector1,
        path,
        "/actions/set1/in/vec1act",
        &["/user/hand/left/input/trigger/value", "/user/hand/right/input/trigger/value"],
    );

    f.verify_bindings(
        ActionKind::Vector2,
        path,
        "/actions/set1/in/vec2act",
        &["/user/hand/left/input/thumbstick", "/user/hand/right/input/thumbstick"],
    );

    f.verify_bindings(
        ActionKind::Haptic,
        path,
        "/actions/set1/in/vib",
        &["/user/hand/left/output/haptic", "/user/hand/right/output/haptic"],
    );
}

#[test]
fn knuckles_verify_bindings() {
    let mut f = Fixture::new();
    f.load_actions(actions_json());

    let path = Profile::Knuckles;
    f.verify_bindings(
        ActionKind::Bool,
        path,
        "/actions/set1/in/boolact",
        &[
            "/user/hand/left/input/a/click",
            "/user/hand/right/input/a/click",
            "/user/hand/left/input/b/click",
            "/user/hand/right/input/b/click",
            "/user/hand/left/input/trigger/touch",
            "/user/hand/right/input/trigger/touch",
            "/user/hand/left/input/thumbstick/click",
            "/user/hand/right/input/thumbstick/click",
            "/user/hand/left/input/thumbstick/touch",
            "/user/hand/right/input/thumbstick/touch",
            "/user/hand/right/input/trackpad/touch",
        ],
    );

    f.verify_analog_extra(
        path,
        "/actions/set1/in/boolact",
        &[
            "/user/hand/left/input/trigger/value",
            "/user/hand/right/input/trigger/value",
            "/user/hand/left/input/squeeze/value",
            "/user/hand/left/input/trackpad/force",
            "/user/hand/right/input/trackpad/force",
        ],
    );
    let handle = f.get_action_handle("/actions/set1/in/boolact");
    let analog = f.extra(handle).analog_action.unwrap();
    let i = f.index_of(handle);
    assert_eq!(f.loaded().actions[i].kind, ActionKind::Bool);
    assert_eq!(f.loaded().runtime_actions[analog as usize].name, "boolact_asfloat");
    assert_eq!(
        f.loaded().keyed.iter().find(|k| k.action == analog).unwrap().key,
        "/actions/set1/boolact_asfloat"
    );

    let grab_data = f.extra(handle).grab_actions.unwrap();
    let suggested = f.suggested(path, grab_data.force_action);
    assert!(suggested.contains(&"/user/hand/right/input/squeeze/force".to_string()));
    assert_eq!(f.suggested(path, grab_data.value_action), vec!["/user/hand/right/input/squeeze/value"]);
    assert_eq!(f.loaded().runtime_actions[grab_data.force_action as usize].name, "boolact_grabactionf");
    assert_eq!(f.loaded().runtime_actions[grab_data.value_action as usize].name, "boolact_grabactionv");

    f.verify_bindings(
        ActionKind::Vector1,
        path,
        "/actions/set1/in/vec1act",
        &[
            "/user/hand/left/input/trigger/value",
            "/user/hand/right/input/trigger/value",
            "/user/hand/left/input/squeeze/force",
            "/user/hand/right/input/squeeze/value",
        ],
    );

    f.verify_bindings(
        ActionKind::Vector2,
        path,
        "/actions/set1/in/vec2act",
        &[
            "/user/hand/left/input/trackpad",
            "/user/hand/right/input/trackpad",
            "/user/hand/left/input/thumbstick",
            "/user/hand/right/input/thumbstick",
        ],
    );

    f.verify_bindings(
        ActionKind::Haptic,
        path,
        "/actions/set1/in/vib",
        &["/user/hand/left/output/haptic", "/user/hand/right/output/haptic"],
    );
}

fn base_verify_bindings(path: Profile) {
    let mut f = Fixture::new();
    f.load_actions(actions_json());

    f.verify_bindings(
        ActionKind::Bool,
        path,
        "/actions/set1/in/boolact",
        &[
            "/user/hand/left/input/thumbstick/click",
            "/user/hand/right/input/thumbstick/click",
            "/user/hand/left/input/squeeze/click",
            "/user/hand/right/input/squeeze/click",
            "/user/hand/left/input/menu/click",
            "/user/hand/right/input/menu/click",
            "/user/hand/left/input/trackpad/click",
            "/user/hand/right/input/trackpad/click",
            "/user/hand/left/input/trackpad/touch",
            "/user/hand/right/input/trackpad/touch",
        ],
    );

    f.verify_analog_extra(
        path,
        "/actions/set1/in/boolact",
        &["/user/hand/left/input/trigger/value", "/user/hand/right/input/trigger/value"],
    );

    f.verify_bindings(
        ActionKind::Vector1,
        path,
        "/actions/set1/in/vec1act",
        &["/user/hand/left/input/trigger/value", "/user/hand/right/input/trigger/value"],
    );

    f.verify_bindings(
        ActionKind::Vector2,
        path,
        "/actions/set1/in/vec2act",
        &[
            "/user/hand/left/input/trackpad",
            "/user/hand/right/input/trackpad",
            "/user/hand/left/input/thumbstick",
            "/user/hand/right/input/thumbstick",
        ],
    );

    f.verify_bindings(
        ActionKind::Haptic,
        path,
        "/actions/set1/in/vib",
        &["/user/hand/left/output/haptic", "/user/hand/right/output/haptic"],
    );
}

#[test]
fn ms_motion_controller_verify_bindings() {
    base_verify_bindings(Profile::HolographicController);
}

#[test]
fn samsung_odyssey_controller_verify_bindings() {
    base_verify_bindings(Profile::SamsungOdysseyController);
}

fn touch_like_verify_bindings(path: Profile) {
    let mut f = Fixture::new();
    f.load_actions(actions_json());

    f.verify_bindings(
        ActionKind::Bool,
        path,
        "/actions/set1/in/boolact",
        &[
            "/user/hand/left/input/x/click",
            "/user/hand/left/input/y/click",
            "/user/hand/right/input/a/click",
            "/user/hand/right/input/b/click",
            "/user/hand/right/input/thumbstick/click",
            "/user/hand/right/input/thumbstick/touch",
            "/user/hand/left/input/menu/click",
        ],
    );

    f.verify_analog_extra(
        path,
        "/actions/set1/in/boolact",
        &[
            "/user/hand/left/input/squeeze/value",
            "/user/hand/right/input/squeeze/value",
            "/user/hand/left/input/trigger/value",
            "/user/hand/right/input/trigger/value",
        ],
    );

    f.verify_bindings(
        ActionKind::Vector1,
        path,
        "/actions/set1/in/vec1act",
        &["/user/hand/left/input/trigger/value", "/user/hand/right/input/trigger/value"],
    );

    f.verify_bindings(
        ActionKind::Vector2,
        path,
        "/actions/set1/in/vec2act",
        &["/user/hand/left/input/thumbstick", "/user/hand/right/input/thumbstick"],
    );

    f.verify_bindings(
        ActionKind::Haptic,
        path,
        "/actions/set1/in/vib",
        &["/user/hand/left/output/haptic", "/user/hand/right/output/haptic"],
    );
}

#[test]
fn oculus_touch_verify_bindings() {
    touch_like_verify_bindings(Profile::Touch);
}

#[test]
fn vive_focus3_verify_bindings() {
    touch_like_verify_bindings(Profile::ViveFocus3);
}

#[test]
fn vive_controller_verify_bindings() {
    let mut f = Fixture::new();
    let path = Profile::ViveWands;
    f.load_actions(actions_json());
    f.verify_bindings(
        ActionKind::Bool,
        path,
        "/actions/set1/in/boolact",
        &[
            "/user/hand/left/input/squeeze/click",
            "/user/hand/right/input/squeeze/click",
            "/user/hand/left/input/menu/click",
            "/user/hand/right/input/menu/click",
            // Suggesting float paths for boolean inputs is legal
            "/user/hand/left/input/trigger/value",
            "/user/hand/right/input/trigger/value",
            "/user/hand/left/input/trackpad/click",
            "/user/hand/left/input/trackpad/touch",
        ],
    );

    f.verify_bindings(
        ActionKind::Vector1,
        path,
        "/actions/set1/in/vec1act",
        &[
            "/user/hand/left/input/trigger/value",
            "/user/hand/right/input/trigger/value",
            "/user/hand/right/input/squeeze/click",
        ],
    );

    f.verify_bindings(
        ActionKind::Vector2,
        path,
        "/actions/set1/in/vec2act",
        &["/user/hand/left/input/trackpad", "/user/hand/right/input/trackpad"],
    );

    f.verify_bindings(
        ActionKind::Haptic,
        path,
        "/actions/set1/in/vib",
        &["/user/hand/left/output/haptic", "/user/hand/right/output/haptic"],
    );
}

#[test]
fn simple_controller_takes_what_it_offers_from_the_vive_file() {
    let mut f = Fixture::new();
    f.load_actions(actions_json());
    let path = Profile::SimpleController;
    // Of the Vive bindings only menu and trigger exist on a simple
    // controller; the trigger becomes its select button.
    f.verify_bindings(
        ActionKind::Bool,
        path,
        BOOLACT,
        &[
            "/user/hand/left/input/menu/click",
            "/user/hand/right/input/menu/click",
            "/user/hand/left/input/select/click",
            "/user/hand/right/input/select/click",
        ],
    );
    f.verify_bindings(ActionKind::Vector2, path, VEC2ACT, &[]);
    f.verify_bindings(
        ActionKind::Haptic,
        path,
        VIB,
        &["/user/hand/left/output/haptic", "/user/hand/right/output/haptic"],
    );
}

#[test]
fn every_suggestion_is_a_path_of_its_profile() {
    let mut f = Fixture::new();
    f.load_actions(actions_json());
    let loaded = f.loaded();
    assert_eq!(loaded.suggestions.len(), xrizer::profiles::Profiles::get().len());
    for list in loaded.suggestions.iter() {
        let legal = list.profile.legal_paths();
        assert!(!list.bindings.is_empty());
        for b in list.bindings.iter() {
            assert!(legal.contains(&b.path.as_str()), "{} on {:?}", b.path, list.profile);
            assert!((b.action as usize) < loaded.runtime_actions.len());
        }
        // The info action is bound to every click, touch, value and force.
        let info: Vec<&str> = list
            .bindings
            .iter()
            .filter(|b| b.action == loaded.info_action)
            .map(|b| b.path.as_str())
            .collect();
        let wide: Vec<&str> = legal
            .iter()
            .copied()
            .filter(|p| {
                p.ends_with("/click") || p.ends_with("/touch") || p.ends_with("/value")
                    || p.ends_with("/force") || p.ends_with("/x") || p.ends_with("/y")
            })
            .collect();
        assert_eq!(info, wide);
    }
}

#[test]
fn translate_rewrites_in_order_and_stops() {
    let knuckles = Profile::Knuckles.translate_map();
    let t = |p: &str| translate(p, &knuckles);
    assert_eq!(t("/user/hand/left/input/trigger/pull"), "/user/hand/left/input/trigger/value");
    // Both rewrites apply, since neither stops.
    assert_eq!(t("/user/hand/left/input/grip/pull"), "/user/hand/left/input/squeeze/value");
    assert_eq!(t("/user/hand/left/input/grip/click"), "/user/hand/left/input/squeeze/value");
    assert_eq!(t("/user/hand/right/input/grip/grab"), "/user/hand/right/input/squeeze/force");
    assert_eq!(t("/user/hand/right/input/trackpad/click"), "/user/hand/right/input/trackpad/force");
    assert_eq!(t("/user/hand/right/input/a/click"), "/user/hand/right/input/a/click");

    let vive = Profile::ViveWands.translate_map();
    // The first rule that applies stops the rewriting.
    assert_eq!(
        translate("/user/hand/left/input/grip/application_menu", &vive),
        "/user/hand/left/input/squeeze/application_menu"
    );
    assert_eq!(translate("/user/hand/left/input/application_menu/click", &vive), "/user/hand/left/input/menu/click");
    assert_eq!(translate("", &vive), "");

    let legal = Profile::ViveWands.legal_paths();
    assert!(legal_path("/user/hand/left/input/menu/click", &legal));
    assert!(!legal_path("/user/hand/left/input/menu/clic", &legal));
    assert!(!legal_path("/user/hand/left/input/a/click", &legal));
    assert!(!legal_path("", &legal));
    assert!(!legal_path("x", &Profile::ViveTracker.legal_paths()));
}

#[test]
fn profile_tables() {
    let list = Profiles::get();
    assert_eq!(list.len(), 8);
    assert_eq!(list[0], (ControllerType::ViveController, Profile::ViveWands));
    assert_eq!(list[3], (ControllerType::ViveController, Profile::SimpleController));
    assert_eq!(Profiles::profiles_iter().len(), 8);
    assert_eq!(
        Profiles::profile_from_name("/interaction_profiles/valve/index_controller"),
        Some(Profile::Knuckles)
    );
    assert_eq!(
        Profiles::profile_from_name("/interaction_profiles/samsung/odyssey_controller"),
        Some(Profile::SamsungOdysseyController)
    );
    assert_eq!(Profiles::profile_from_name("/interaction_profiles/ext/hand_interaction_ext"), None);
    assert_eq!(Profiles::profile_from_name(""), None);
    for (_, p) in list.iter() {
        assert_eq!(Profiles::profile_from_name(p.profile_path()), Some(*p));
        assert!(p.legacy_bindings().is_some());
    }
    assert!(Profile::ViveTracker.legacy_bindings().is_none());
    assert!(Profile::VRLinkHand.legacy_bindings().is_none());
    assert_eq!(Profile::ViveTracker.properties().legacy_buttons_mask, 0);

    assert_eq!(ControllerType::from_name("knuckles"), ControllerType::Knuckles);
    assert_eq!(ControllerType::from_name("hpmotioncontroller"), ControllerType::HpMotionController);
    assert_eq!(ControllerType::from_name("gamepad"), ControllerType::Unknown);
    assert_eq!(ControllerType::from_name(""), ControllerType::Unknown);

    let standard = button_mask_from_ids(&vec![
        EVRButtonId::System,
        EVRButtonId::ApplicationMenu,
        EVRButtonId::Grip,
        EVRButtonId::A,
        EVRButtonId::Axis0,
        EVRButtonId::Axis1,
        EVRButtonId::Axis2,
    ]);
    assert_eq!(standard, 0x7_0000_0087);
    for p in [Profile::Knuckles, Profile::Touch, Profile::HolographicController, Profile::ReverbG2Controller] {
        assert_eq!(p.properties().legacy_buttons_mask, standard);
        assert_eq!(p.properties().main_axis, MainAxisType::Thumbstick);
    }
    assert_eq!(Profile::ViveWands.properties().main_axis, MainAxisType::Trackpad);
    assert_eq!(
        Profile::SimpleController.properties().legacy_buttons_mask,
        (1 << 0) | (1 << 1) | (1 << 2) | (1 << 32) | (1 << 33)
    );
    assert_eq!(
        Profile::ViveFocus3.properties().legacy_buttons_mask,
        button_mask_from_ids(&vec![
            EVRButtonId::System,
            EVRButtonId::ApplicationMenu,
            EVRButtonId::Grip,
            EVRButtonId::A,
            EVRButtonId::Axis1,
            EVRButtonId::Axis2,
            EVRButtonId::Axis3,
            EVRButtonId::Axis4,
        ])
    );
    let k = Profile::Knuckles.properties();
    assert_eq!(k.model.get(Hand::Left), "Knuckles Left");
    assert_eq!(k.model.get(Hand::Right), "Knuckles Right");
    assert_eq!(k.openvr_controller_type, "knuckles");
    assert_eq!(Profile::ViveFocus3.properties().model.get(Hand::Right), "vive_focus3_controller");
    // The Samsung controller shares the inputs of the holographic one.
    assert_eq!(Profile::SamsungOdysseyController.translate_map(), Profile::HolographicController.translate_map());
    assert_eq!(Profile::SamsungOdysseyController.legal_paths(), Profile::HolographicController.legal_paths());
    assert_ne!(Profile::SamsungOdysseyController.properties(), Profile::HolographicController.properties());
    assert_eq!(Profile::Knuckles.legal_paths().len(), 44);
    assert_eq!(Profile::Touch.legal_paths().len(), 33);
    let s = Profile::Knuckles.skeletal_input_bindings();
    assert_eq!(s.thumb_touch.len(), 4);
    assert_eq!(s.index_curl, vec!["/user/hand/left/input/trigger/value", "/user/hand/right/input/trigger/value"]);
}
