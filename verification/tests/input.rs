use xrizer::events::{EventType, InputEvent};
use xrizer::input::{InputSkeletalActionData, SkeletalTrackingLevel, HAND_SKELETON_BONE_COUNT};
use std::collections::BTreeMap;
use xrizer::action_manifest::{
    ActionEntry, ActionKind, ActionManifest, ActionSetBinding, ActionSetEntry, ActionType,
    DefaultBinding, DpadSubMode, LoadedActions, Localization, Parameters, SimpleBinding,
    SourceBinding, SourceInputs, SourceMode,
};
use xrizer::custom_bindings::{BindingType, DpadActions, ExtraActionData};
use xrizer::devices::{DeviceSpace, PoseLookup, TrackedDevicePose, TrackingUniverseOrigin};
use xrizer::error::InputError;
use xrizer::fixed::Fixed;
use xrizer::input::{
    ActiveActionSet, FrameAction, Input, InputAnalogActionData, InputDigitalActionData,
};
use xrizer::profiles::Profile;
use xrizer::runtime::{ActionState, ActionValue, Hand, Snapshot, Vector2};

#[allow(dead_code)]
fn fx(v: f32) -> Fixed {
    Fixed::from_raw((v as f64 * 4294967296.0).round() as i64)
}

#[allow(dead_code)]
#[derive(Clone, Copy, PartialEq, Debug)]
enum Val {
    Bool(bool),
    Float(f32),
    Vec2(f32, f32),
    Pose(bool),
}

#[allow(dead_code)]
fn hand_key(hand: Hand) -> u8 {
    match hand {
        Hand::Left => 0,
        Hand::Right => 1,
    }
}

/// A stand-in for the runtime: it holds what each action reports for each
/// hand, and a sync turns that into a snapshot. An action is active for a
/// hand once a value was set for it; the null path reports the larger of
/// both hands.
#[allow(dead_code)]
struct FakeRuntime {
    current: BTreeMap<(u32, u8), Val>,
    synced: BTreeMap<(u32, u8), Val>,
}

#[allow(dead_code)]
impl FakeRuntime {
    fn new() -> Self {
        FakeRuntime { current: BTreeMap::new(), synced: BTreeMap::new() }
    }

    fn set(&mut self, action: u32, value: Val, hand: Hand) {
        self.current.insert((action, hand_key(hand)), value);
    }

    fn zero(v: Val) -> Val {
        match v {
            Val::Bool(_) => Val::Bool(false),
            Val::Float(_) => Val::Float(0.0),
            Val::Vec2(..) => Val::Vec2(0.0, 0.0),
            Val::Pose(_) => Val::Pose(false),
        }
    }

    fn larger(a: Val, b: Val) -> Val {
        match (a, b) {
            (Val::Bool(x), Val::Bool(y)) => Val::Bool(x || y),
            (Val::Float(x), Val::Float(y)) => Val::Float(if y.abs() > x.abs() { y } else { x }),
            (Val::Vec2(x0, y0), Val::Vec2(x1, y1)) => {
                if x1.hypot(y1) > x0.hypot(y0) {
                    Val::Vec2(x1, y1)
                } else {
                    Val::Vec2(x0, y0)
                }
            }
            (Val::Pose(x), Val::Pose(y)) => Val::Pose(x || y),
            (a, _) => a,
        }
    }

    fn value(v: Val, changed: bool) -> ActionValue {
        match v {
            Val::Bool(b) => ActionValue::Bool(ActionState {
                current_state: b,
                changed_since_last_sync: changed,
                last_change_time: 0,
                is_active: true,
            }),
            Val::Float(f) => ActionValue::Float(ActionState {
                current_state: fx(f),
                changed_since_last_sync: changed,
                last_change_time: 0,
                is_active: true,
            }),
            Val::Vec2(x, y) => ActionValue::Vector2(ActionState {
                current_state: Vector2 { x: fx(x), y: fx(y) },
                changed_since_last_sync: changed,
                last_change_time: 0,
                is_active: true,
            }),
            Val::Pose(active) => ActionValue::Pose(active),
        }
    }

    fn combined(map: &BTreeMap<(u32, u8), Val>, action: u32) -> Option<Val> {
        match (map.get(&(action, 0)), map.get(&(action, 1))) {
            (Some(a), Some(b)) => Some(Self::larger(*a, *b)),
            (Some(a), None) => Some(*a),
            (None, Some(b)) => Some(*b),
            (None, None) => None,
        }
    }

    fn sync(&mut self) -> Snapshot {
        let mut snapshot = Snapshot::new();
        let mut actions: Vec<u32> = Vec::new();
        for ((action, hand), value) in self.current.iter() {
            let before = self.synced.get(&(*action, *hand)).copied().unwrap_or(Self::zero(*value));
            let hand = if *hand == 0 { Hand::Left } else { Hand::Right };
            snapshot.record(*action, Some(hand), Self::value(*value, before != *value));
            if !actions.contains(action) {
                actions.push(*action);
            }
        }
        for action in actions {
            let now = Self::combined(&self.current, action).unwrap();
            let before = Self::combined(&self.synced, action).unwrap_or(Self::zero(now));
            snapshot.record(action, None, Self::value(now, before != now));
        }
        self.synced = self.current.clone();
        snapshot
    }
}

#[allow(dead_code)]
fn no_inputs() -> SourceInputs {
    SourceInputs {
        click: None,
        touch: None,
        pull: None,
        force: None,
        position: None,
        grab: None,
        north: None,
        east: None,
        south: None,
        west: None,
        center: None,
    }
}

#[allow(dead_code)]
fn no_parameters() -> Parameters {
    Parameters {
        sub_mode: None,
        click_activate_threshold: None,
        click_deactivate_threshold: None,
        value_hold_threshold: None,
        value_release_threshold: None,
    }
}

#[allow(dead_code)]
fn thresholds() -> Parameters {
    Parameters {
        click_activate_threshold: Some(fx(0.25)),
        click_deactivate_threshold: Some(fx(0.20)),
        ..no_parameters()
    }
}

#[allow(dead_code)]
fn out(name: &str) -> Option<String> {
    Some(name.to_string())
}

#[allow(dead_code)]
fn source(path: &str, mode: SourceMode, inputs: SourceInputs, parameters: Parameters) -> SourceBinding {
    SourceBinding { path: path.to_string(), mode, inputs, parameters }
}

#[allow(dead_code)]
fn simple(output: &str, path: &str) -> SimpleBinding {
    SimpleBinding { output: output.to_string(), path: path.to_string() }
}

#[allow(dead_code)]
fn action(name: &str, ty: ActionType) -> ActionEntry {
    ActionEntry { name: name.to_string(), ty, skeleton: None }
}

#[allow(dead_code)]
fn skeleton(name: &str, hand: &str) -> ActionEntry {
    ActionEntry {
        name: name.to_string(),
        ty: ActionType::Skeleton,
        skeleton: Some(format!("/skeleton/hand/{hand}")),
    }
}

#[allow(dead_code)]
fn bindings_for(controller_type: &str, sets: Vec<ActionSetBinding>) -> DefaultBinding {
    DefaultBinding {
        controller_type: controller_type.to_string(),
        binding_url: format!("{controller_type}.json"),
        bindings: Some(sets),
    }
}

#[allow(dead_code)]
fn set_binding(set: &str, sources: Vec<SourceBinding>) -> ActionSetBinding {
    ActionSetBinding { set: set.to_string(), sources, poses: Vec::new(), haptics: Vec::new() }
}

#[allow(dead_code)]
fn manifest(sets: &[&str], actions: Vec<ActionEntry>, default_bindings: Vec<DefaultBinding>) -> ActionManifest {
    ActionManifest {
        action_sets: sets.iter().map(|s| ActionSetEntry { name: s.to_string() }).collect(),
        actions,
        default_bindings,
        localization: Vec::<Localization>::new(),
    }
}

#[allow(dead_code)]
const LEFT: &str = "/user/hand/left";
#[allow(dead_code)]
const RIGHT: &str = "/user/hand/right";

#[allow(dead_code)]
struct Fixture {
    input: Input,
    rt: FakeRuntime,
    pending: Vec<(Hand, Profile)>,
    manifest: Option<ActionManifest>,
}

#[allow(dead_code)]
impl Fixture {
    fn new() -> Self {
        Fixture { input: Input::new(), rt: FakeRuntime::new(), pending: Vec::new(), manifest: None }
    }

    fn load_actions(&mut self, m: ActionManifest) {
        assert!(self.input.set_action_manifest_path("actions.json", &m).is_ok());
        self.manifest = Some(m);
    }

    fn restart_session(&mut self) {
        self.input.post_session_restart(self.manifest.as_ref()).unwrap();
        self.input.set_real_session(true);
    }

    fn get_action_handle(&mut self, name: &str) -> u64 {
        let handle = self.input.get_action_handle(name).unwrap();
        assert_ne!(handle, 0);
        handle
    }

    fn get_action_set_handle(&mut self, name: &str) -> u64 {
        let handle = self.input.get_action_set_handle(name).unwrap();
        assert_ne!(handle, 0);
        handle
    }

    fn get_input_source_handle(&mut self, name: &str) -> u64 {
        self.input.get_input_source_handle(name).unwrap()
    }

    fn set_interaction_profile(&mut self, profile: Profile, hand: Hand) {
        self.pending.push((hand, profile));
    }

    fn poll_events(&mut self) {
        let pending: Vec<(Hand, Profile)> = self.pending.drain(..).collect();
        for (hand, profile) in pending {
            self.input.set_interaction_profile(hand, 1, Some(profile));
        }
    }

    fn sync(&mut self, set: u64) {
        let sets = vec![ActiveActionSet { action_set: set, restricted_to_device: 0 }];
        assert!(self.input.update_action_state(&sets).is_ok());
        let snapshot = self.rt.sync();
        self.input.set_snapshot(snapshot);
        self.poll_events();
    }

    fn frame_start_update(&mut self) -> FrameAction {
        let action = self.input.frame_start_update();
        match action {
            FrameAction::Idle => {}
            _ => {
                let snapshot = self.rt.sync();
                self.input.set_snapshot(snapshot);
            }
        }
        action
    }

    fn loaded(&self) -> &LoadedActions {
        self.input.get_loaded_actions().expect("Actions aren't loaded")
    }

    fn index_of(&self, handle: u64) -> usize {
        self.loaded().try_get_action(handle).expect("Couldn't find action for handle")
    }

    fn get_action(&self, handle: u64) -> u32 {
        let i = self.index_of(handle);
        self.loaded().actions[i].action.expect("Couldn't get runtime action")
    }

    fn extra(&self, handle: u64) -> ExtraActionData {
        let i = self.index_of(handle);
        self.loaded().actions[i].extra
    }

    fn suggested(&self, profile: Profile, action: u32) -> Vec<String> {
        let list = self
            .loaded()
            .suggestions
            .iter()
            .find(|s| s.profile == profile)
            .expect("profile is not supported");
        list.bindings.iter().filter(|b| b.action == action).map(|b| b.path.clone()).collect()
    }

    fn verify_bindings_core(&self, profile: Profile, action: u32, name: &str, expected: &[&str]) {
        let mut expected: Vec<String> = expected.iter().map(|s| s.to_string()).collect();
        let mut found: Vec<String> = Vec::new();
        for binding in self.suggested(profile, action) {
            let position = expected.iter().position(|e| *e == binding);
            assert!(
                position.is_some() || found.contains(&binding),
                "Unexpected binding {binding} for {name}\nfound bindings: {found:#?}\nremaining bindings: {expected:#?}"
            );
            if let Some(p) = position {
                expected.remove(p);
            }
            found.push(binding);
        }
        assert!(expected.is_empty(), "Missing expected bindings for {name}: {expected:#?}");
    }

    fn verify_bindings(&mut self, kind: ActionKind, profile: Profile, name: &str, expected: &[&str]) {
        let handle = self.get_action_handle(name);
        let i = self.index_of(handle);
        assert_eq!(self.loaded().actions[i].kind, kind, "wrong kind for {name}");
        let action = self.get_action(handle);
        self.verify_bindings_core(profile, action, name, expected);
    }

    fn verify_analog_extra(&mut self, profile: Profile, name: &str, expected: &[&str]) {
        let handle = self.get_action_handle(name);
        let action = self.extra(handle).analog_action.expect("no analog extra action");
        self.verify_bindings_core(profile, action, name, expected);
    }

    fn dpad_bindings(&self, handle: u64, profile: Profile) -> Vec<(DpadActions, Hand)> {
        let i = self.index_of(handle);
        let mut found = Vec::new();
        for entry in self.loaded().actions[i].bindings.iter() {
            if entry.profile == profile {
                for b in entry.bindings.iter() {
                    if let BindingType::Dpad(d) = b.ty {
                        found.push((d.actions, b.hand));
                    }
                }
            }
        }
        found
    }

    fn dpad_action(&self, handle: u64, profile: Profile) -> DpadActions {
        let found = self.dpad_bindings(handle, profile);
        if found.len() != 1 {
            panic!("Got {} dpad bindings when one was expected", found.len());
        }
        found[0].0
    }

    fn get_bool_state(&mut self, handle: u64) -> Result<InputDigitalActionData, InputError> {
        self.input.get_digital_action_data(handle, 0)
    }

    fn get_bool_state_hand(&mut self, handle: u64, restrict: u64) -> Result<InputDigitalActionData, InputError> {
        self.input.get_digital_action_data(handle, restrict)
    }

    fn get_analog_state(&mut self, handle: u64) -> Result<InputAnalogActionData, InputError> {
        self.input.get_analog_action_data(handle, 0)
    }

    fn located(&self, value: u32) -> TrackedDevicePose {
        let mut matrix = [0u32; 12];
        matrix[3] = value;
        TrackedDevicePose::from_location(3, matrix, [0; 3], [0; 3])
    }
}

#[allow(dead_code)]
const BOOLACT: &str = "/actions/set1/in/boolact";
#[allow(dead_code)]
const BOOLACT2: &str = "/actions/set1/in/boolact2";
#[allow(dead_code)]
const BOOLACT3: &str = "/actions/set1/in/boolact3";
#[allow(dead_code)]
const VEC1ACT: &str = "/actions/set1/in/vec1act";
#[allow(dead_code)]
const VEC2ACT: &str = "/actions/set1/in/vec2act";
#[allow(dead_code)]
const VIB: &str = "/actions/set1/in/vib";

#[allow(dead_code)]
fn input(hand: &str, name: &str) -> String {
    format!("{hand}/input/{name}")
}

#[allow(dead_code)]
fn button(hand: &str, name: &str, output: &str) -> SourceBinding {
    source(
        &input(hand, name),
        SourceMode::Button,
        SourceInputs { click: out(output), ..no_inputs() },
        no_parameters(),
    )
}

#[allow(dead_code)]
fn button_with_thresholds(hand: &str, name: &str, output: &str) -> SourceBinding {
    source(
        &input(hand, name),
        SourceMode::Button,
        SourceInputs { click: out(output), ..no_inputs() },
        thresholds(),
    )
}

#[allow(dead_code)]
fn common(sources: Vec<SourceBinding>) -> Vec<ActionSetBinding> {
    vec![ActionSetBinding {
        set: "/actions/set1".to_string(),
        sources,
        poses: vec![
            simple("/actions/set1/in/pose", "/user/hand/left/pose/raw"),
            simple("/actions/set1/in/pose", "/user/hand/right/pose/raw"),
            simple("/actions/set1/in/posel", "/user/hand/left/pose/raw"),
            simple("/actions/set1/in/poser", "/user/hand/right/pose/raw"),
        ],
        haptics: vec![
            simple(VIB, "/user/hand/left/output/haptic"),
            simple(VIB, "/user/hand/right/output/haptic"),
        ],
    }]
}

#[allow(dead_code)]
fn knuckles_sources() -> Vec<SourceBinding> {
    let mut s = Vec::new();
    for hand in [LEFT, RIGHT] {
        s.push(button(hand, "a", BOOLACT));
        s.push(button(hand, "b", BOOLACT));
        s.push(source(
            &input(hand, "trigger"),
            SourceMode::Trigger,
            SourceInputs { click: out(BOOLACT), touch: out(BOOLACT), pull: out(VEC1ACT), ..no_inputs() },
            thresholds(),
        ));
        s.push(source(
            &input(hand, "thumbstick"),
            SourceMode::Joystick,
            SourceInputs { click: out(BOOLACT), touch: out(BOOLACT), position: out(VEC2ACT), ..no_inputs() },
            no_parameters(),
        ));
        s.push(source(
            &input(hand, "trackpad"),
            SourceMode::Trackpad,
            SourceInputs {
                click: out(BOOLACT),
                touch: if hand == RIGHT { out(BOOLACT) } else { None },
                position: out(VEC2ACT),
                ..no_inputs()
            },
            thresholds(),
        ));
    }
    s.push(button_with_thresholds(LEFT, "grip", BOOLACT));
    s.push(source(
        &input(LEFT, "grip"),
        SourceMode::Button,
        SourceInputs { force: out(VEC1ACT), ..no_inputs() },
        no_parameters(),
    ));
    s.push(source(
        &input(LEFT, "grip"),
        SourceMode::Grab,
        SourceInputs { grab: out(BOOLACT2), ..no_inputs() },
        no_parameters(),
    ));
    s.push(source(
        &input(RIGHT, "grip"),
        SourceMode::Trigger,
        SourceInputs { pull: out(VEC1ACT), ..no_inputs() },
        no_parameters(),
    ));
    s.push(source(
        &input(RIGHT, "grip"),
        SourceMode::Grab,
        SourceInputs { grab: out(BOOLACT), ..no_inputs() },
        Parameters {
            value_hold_threshold: Some(fx(1.16)),
            value_release_threshold: Some(fx(1.15)),
            ..no_parameters()
        },
    ));
    s
}

#[allow(dead_code)]
fn touch_sources() -> Vec<SourceBinding> {
    let mut s = vec![
        button(LEFT, "x", BOOLACT),
        button(LEFT, "y", BOOLACT),
        button(RIGHT, "a", BOOLACT),
        button(RIGHT, "b", BOOLACT),
        button(LEFT, "application_menu", BOOLACT),
        source(
            &input(RIGHT, "joystick"),
            SourceMode::Joystick,
            SourceInputs { click: out(BOOLACT), touch: out(BOOLACT), position: out(VEC2ACT), ..no_inputs() },
            no_parameters(),
        ),
        source(
            &input(LEFT, "joystick"),
            SourceMode::Joystick,
            SourceInputs { position: out(VEC2ACT), ..no_inputs() },
            no_parameters(),
        ),
        source(
            &input(LEFT, "grip"),
            SourceMode::Button,
            SourceInputs { touch: out(BOOLACT2), ..no_inputs() },
            no_parameters(),
        ),
    ];
    for hand in [LEFT, RIGHT] {
        s.push(button_with_thresholds(hand, "grip", BOOLACT));
        s.push(source(
            &input(hand, "trigger"),
            SourceMode::Trigger,
            SourceInputs { click: out(BOOLACT), pull: out(VEC1ACT), touch: out(BOOLACT3), ..no_inputs() },
            thresholds(),
        ));
    }
    s
}

#[allow(dead_code)]
fn focus3_sources() -> Vec<SourceBinding> {
    let mut s = vec![
        button(LEFT, "x", BOOLACT),
        button(LEFT, "y", BOOLACT),
        button(RIGHT, "a", BOOLACT),
        button(RIGHT, "b", BOOLACT),
        button(LEFT, "application_menu", BOOLACT),
        source(
            &input(RIGHT, "joystick"),
            SourceMode::Joystick,
            SourceInputs { click: out(BOOLACT), touch: out(BOOLACT), position: out(VEC2ACT), ..no_inputs() },
            no_parameters(),
        ),
        source(
            &input(LEFT, "joystick"),
            SourceMode::Joystick,
            SourceInputs { position: out(VEC2ACT), ..no_inputs() },
            no_parameters(),
        ),
    ];
    for hand in [LEFT, RIGHT] {
        s.push(button_with_thresholds(hand, "grip", BOOLACT));
        s.push(source(
            &input(hand, "trigger"),
            SourceMode::Trigger,
            SourceInputs { click: out(BOOLACT), pull: out(VEC1ACT), ..no_inputs() },
            thresholds(),
        ));
    }
    s
}

#[allow(dead_code)]
fn vive_sources() -> Vec<SourceBinding> {
    let mut s = Vec::new();
    for hand in [LEFT, RIGHT] {
        s.push(button(hand, "grip", BOOLACT));
        s.push(button(hand, "application_menu", BOOLACT));
        s.push(source(
            &input(hand, "trigger"),
            SourceMode::Trigger,
            SourceInputs { click: out(BOOLACT), pull: out(VEC1ACT), ..no_inputs() },
            no_parameters(),
        ));
        s.push(source(
            &input(hand, "trackpad"),
            SourceMode::Trackpad,
            SourceInputs {
                click: if hand == LEFT { out(BOOLACT) } else { None },
                touch: if hand == LEFT { out(BOOLACT) } else { None },
                position: out(VEC2ACT),
                ..no_inputs()
            },
            no_parameters(),
        ));
    }
    s.push(button(RIGHT, "grip", VEC1ACT));
    s
}

#[allow(dead_code)]
fn holographic_sources() -> Vec<SourceBinding> {
    let mut s = Vec::new();
    for hand in [LEFT, RIGHT] {
        s.push(source(
            &input(hand, "joystick"),
            SourceMode::Joystick,
            SourceInputs { click: out(BOOLACT), position: out(VEC2ACT), ..no_inputs() },
            no_parameters(),
        ));
        s.push(button(hand, "grip", BOOLACT));
        s.push(button(hand, "application_menu", BOOLACT));
        s.push(source(
            &input(hand, "trackpad"),
            SourceMode::Trackpad,
            SourceInputs { click: out(BOOLACT), touch: out(BOOLACT), position: out(VEC2ACT), ..no_inputs() },
            no_parameters(),
        ));
        s.push(source(
            &input(hand, "trigger"),
            SourceMode::Trigger,
            SourceInputs { click: out(BOOLACT), pull: out(VEC1ACT), ..no_inputs() },
            thresholds(),
        ));
    }
    s
}

#[allow(dead_code)]
fn hp_sources() -> Vec<SourceBinding> {
    let mut s = vec![
        button(LEFT, "x", BOOLACT),
        button(LEFT, "y", BOOLACT),
        button(RIGHT, "a", BOOLACT),
        button(RIGHT, "b", BOOLACT),
    ];
    for hand in [LEFT, RIGHT] {
        s.push(source(
            &input(hand, "joystick"),
            SourceMode::Joystick,
            SourceInputs { click: out(BOOLACT), position: out(VEC2ACT), ..no_inputs() },
            no_parameters(),
        ));
        s.push(button(hand, "grip", BOOLACT));
        s.push(button(hand, "application_menu", BOOLACT));
        s.push(source(
            &input(hand, "trigger"),
            SourceMode::Trigger,
            SourceInputs { click: out(BOOLACT), pull: out(VEC1ACT), ..no_inputs() },
            thresholds(),
        ));
    }
    s
}

/// The manifest that most tests load: one set with boolean, float,
/// two-axis, haptic, pose and skeleton actions, bound for every supported
/// kind of controller.
#[allow(dead_code)]
fn actions_json() -> ActionManifest {
    manifest(
        &["/actions/set1"],
        vec![
            action(BOOLACT, ActionType::Boolean),
            action(BOOLACT2, ActionType::Boolean),
            action(BOOLACT3, ActionType::Boolean),
            action(VEC1ACT, ActionType::Vector1),
            action(VEC2ACT, ActionType::Vector2),
            action(VIB, ActionType::Vibration),
            action("/actions/set1/in/pose", ActionType::Pose),
            action("/actions/set1/in/posel", ActionType::Pose),
            action("/actions/set1/in/poser", ActionType::Pose),
            skeleton("/actions/set1/in/skellyl", "left"),
            skeleton("/actions/set1/in/skellyr", "right"),
        ],
        vec![
            bindings_for("knuckles", common(knuckles_sources())),
            bindings_for("oculus_touch", common(touch_sources())),
            bindings_for("vive_controller", common(vive_sources())),
            bindings_for("holographic_controller", common(holographic_sources())),
            bindings_for("hpmotioncontroller", common(hp_sources())),
            bindings_for("vive_focus3_controller", common(focus3_sources())),
        ],
    )
}

#[allow(dead_code)]
fn dpad(path: &str, sub_mode: Option<DpadSubMode>, north: &str) -> SourceBinding {
    source(
        path,
        SourceMode::Dpad,
        SourceInputs { north: out(north), ..no_inputs() },
        Parameters { sub_mode, ..no_parameters() },
    )
}

/// Two sets, each with a boolean action on the north of the left
/// trackpad of a Vive wand.
#[allow(dead_code)]
fn actions_dpad_json() -> ActionManifest {
    manifest(
        &["/actions/set1", "/actions/set2"],
        vec![
            action("/actions/set1/in/boolact", ActionType::Boolean),
            action("/actions/set2/in/boolact", ActionType::Boolean),
        ],
        vec![bindings_for(
            "vive_controller",
            vec![
                set_binding(
                    "/actions/set1",
                    vec![dpad(&input(LEFT, "trackpad"), Some(DpadSubMode::Click), "/actions/set1/in/boolact")],
                ),
                set_binding(
                    "/actions/set2",
                    vec![dpad(&input(LEFT, "trackpad"), Some(DpadSubMode::Click), "/actions/set2/in/boolact")],
                ),
            ],
        )],
    )
}

/// A boolean action with a dpad and a plain button on a Vive wand, and a
/// grab for both hands on a Knuckles controller.
#[allow(dead_code)]
fn actions_dpad_mixed_json() -> ActionManifest {
    manifest(
        &["/actions/set1"],
        vec![action(BOOLACT, ActionType::Boolean)],
        vec![
            bindings_for(
                "vive_controller",
                vec![set_binding(
                    "/actions/set1",
                    vec![
                        dpad(&input(LEFT, "trackpad"), Some(DpadSubMode::Click), BOOLACT),
                        button(LEFT, "application_menu", BOOLACT),
                    ],
                )],
            ),
            bindings_for(
                "knuckles",
                vec![set_binding(
                    "/actions/set1",
                    vec![
                        source(
                            &input(LEFT, "grip"),
                            SourceMode::Grab,
                            SourceInputs { grab: out(BOOLACT), ..no_inputs() },
                            no_parameters(),
                        ),
                        source(
                            &input(RIGHT, "grip"),
                            SourceMode::Grab,
                            SourceInputs { grab: out(BOOLACT), ..no_inputs() },
                            no_parameters(),
                        ),
                    ],
                )],
            ),
        ],
    )
}

/// A boolean action on the north of the left trackpad of a Vive wand and
/// on the north of the left thumbstick of a Knuckles controller.
#[allow(dead_code)]
fn actions_dpad_multi_json() -> ActionManifest {
    manifest(
        &["/actions/set1"],
        vec![action(BOOLACT, ActionType::Boolean)],
        vec![
            bindings_for(
                "vive_controller",
                vec![set_binding(
                    "/actions/set1",
                    vec![dpad(&input(LEFT, "trackpad"), Some(DpadSubMode::Click), BOOLACT)],
                )],
            ),
            bindings_for(
                "knuckles",
                vec![set_binding(
                    "/actions/set1",
                    vec![dpad(&input(LEFT, "thumbstick"), Some(DpadSubMode::Click), BOOLACT)],
                )],
            ),
        ],
    )
}

/// A boolean action on the east of both thumbsticks of a Touch
/// controller.
#[allow(dead_code)]
fn actions_dpad_two_inputs_json() -> ActionManifest {
    let east = |hand: &str| {
        source(
            &input(hand, "joystick"),
            SourceMode::Dpad,
            SourceInputs { east: out(BOOLACT), ..no_inputs() },
            Parameters { sub_mode: Some(DpadSubMode::Touch), ..no_parameters() },
        )
    };
    manifest(
        &["/actions/set1"],
        vec![action(BOOLACT, ActionType::Boolean)],
        vec![bindings_for(
            "oculus_touch",
            vec![set_binding("/actions/set1", vec![east(LEFT), east(RIGHT)])],
        )],
    )
}

/// A boolean action toggled by the A button of both hands of a Knuckles
/// controller.
#[allow(dead_code)]
fn actions_toggle_json() -> ActionManifest {
    let toggle = |hand: &str| {
        source(
            &input(hand, "a"),
            SourceMode::ToggleButton,
            SourceInputs { click: out(BOOLACT), ..no_inputs() },
            no_parameters(),
        )
    };
    manifest(
        &["/actions/set1"],
        vec![action(BOOLACT, ActionType::Boolean)],
        vec![bindings_for(
            "knuckles",
            vec![set_binding("/actions/set1", vec![toggle(LEFT), toggle(RIGHT)])],
        )],
    )
}

#[test]
fn unknown_handles() {
    let mut f = Fixture::new();
    f.load_actions(actions_json());

    let handle = f.get_action_handle("/actions/set1/in/fakeaction");
    assert!(f.input.get_digital_action_data(handle, 0).is_err());
    assert_eq!(f.input.get_digital_action_data(handle, 0), Err(InputError::InvalidHandle));
}

#[test]
fn handles_dont_change_after_load() {
    let mut f = Fixture::new();

    let set1 = f.get_action_set_handle("/actions/set1");
    let boolact = f.get_action_handle("/actions/set1/in/boolact");

    f.load_actions(actions_json());

    let set_load = f.get_action_set_handle("/actions/set1");
    assert_eq!(set_load, set1);
    let act_load = f.get_action_handle("/actions/set1/in/boolact");
    assert_eq!(act_load, boolact);
    let i = f.index_of(boolact);
    assert_eq!(f.loaded().actions[i].path, "/actions/set1/in/boolact");
    assert_eq!(f.loaded().try_get_set(set1), Some(0));
}

#[test]
fn handles_are_stable_and_never_alias() {
    let mut f = Fixture::new();
    let a = f.get_action_handle("/actions/main/in/Jump");
    let b = f.get_action_handle("/actions/main/in/jump");
    let c = f.get_action_handle("/ACTIONS/MAIN/IN/JUMP");
    assert_eq!(a, b);
    assert_eq!(a, c);
    let mut seen = vec![a];
    for i in 0..50 {
        let h = f.get_action_handle(&format!("/actions/main/in/action{i}"));
        assert!(!seen.contains(&h));
        assert_eq!(h & 0x1_0000_0000, 0x1_0000_0000);
        seen.push(h);
    }
    assert_eq!(f.input.action_handle_count(), 51);
    assert_eq!(f.input.action_path(a).unwrap(), "/actions/main/in/jump");
    // A value with the lowest bit of the upper half cleared finds the same
    // path; other values find nothing.
    assert_eq!(f.input.action_path(a & !0x1_0000_0000).unwrap(), "/actions/main/in/jump");
    assert!(f.input.action_path(0).is_none());
    assert!(f.input.action_path(3434343343).is_none());
    assert!(f.input.action_path(a + 0x2_0000_0000).is_none());

    let left = f.get_input_source_handle("/user/hand/left");
    let right = f.get_input_source_handle("/user/hand/right");
    assert_eq!(left, f.input.hand_handle(Hand::Left));
    assert_eq!(right, f.input.hand_handle(Hand::Right));
    assert_ne!(left, right);
    // Input sources are taken as written.
    let upper = f.get_input_source_handle("/user/hand/LEFT");
    assert_ne!(upper, left);
    assert_eq!(f.get_input_source_handle("/user/hand/LEFT"), upper);
    assert_eq!(f.input.subaction_path_from_handle(0), Some(None));
    assert_eq!(f.input.subaction_path_from_handle(left), Some(Some(Hand::Left)));
    assert_eq!(f.input.subaction_path_from_handle(right), Some(Some(Hand::Right)));
    assert_eq!(f.input.subaction_path_from_handle(upper), None);
    assert_eq!(f.input.subaction_path_from_handle(12345), None);

    let info = f.input.get_origin_tracked_device_info(left).unwrap();
    assert_eq!((info.device_path, info.tracked_device_index), (left, 1));
    let info = f.input.get_origin_tracked_device_info(right).unwrap();
    assert_eq!((info.device_path, info.tracked_device_index), (right, 2));
    let info = f.input.get_origin_tracked_device_info(upper).unwrap();
    assert_eq!((info.device_path, info.tracked_device_index), (0, 0));
    assert_eq!(f.input.get_origin_tracked_device_info(999), Err(InputError::InvalidHandle));
}

#[test]
fn input_state_flow() {
    let mut f = Fixture::new();

    let set1 = f.get_action_set_handle("/actions/set1");
    let boolact = f.get_action_handle("/actions/set1/in/boolact");

    f.load_actions(actions_json());

    assert!(f.input.get_legacy_actions().is_none());

    f.sync(set1);

    let state = f.get_bool_state(boolact).unwrap();
    assert!(!state.state);
    assert!(!state.active);
    assert!(!state.changed);

    f.sync(set1);

    let state = f.get_bool_state(boolact).unwrap();
    assert!(!state.state);
    assert!(!state.active);
    assert!(!state.changed);

    let direct = f.get_action(boolact);
    f.rt.set(direct, Val::Bool(true), Hand::Left);

    f.sync(set1);

    let state = f.get_bool_state(boolact).unwrap();
    assert!(state.state);
    assert!(state.active);
    assert!(state.changed);
}

#[test]
fn boolean_press_on_knuckles() {
    let mut f = Fixture::new();
    let set1 = f.get_action_set_handle("/actions/set1");
    let boolact = f.get_action_handle("/actions/set1/in/boolact");
    f.load_actions(actions_json());
    f.set_interaction_profile(Profile::Knuckles, Hand::Left);
    let direct = f.get_action(boolact);
    f.rt.set(direct, Val::Bool(true), Hand::Left);
    f.sync(set1);
    let left = f.input.hand_handle(Hand::Left);
    let state = f.get_bool_state_hand(boolact, left).unwrap();
    assert_eq!(
        state,
        InputDigitalActionData { active: true, active_origin: left, state: true, changed: true }
    );
}

#[test]
fn update_action_state_errors() {
    let mut f = Fixture::new();
    let set1 = f.get_action_set_handle("/actions/set1");
    let one = vec![ActiveActionSet { action_set: set1, restricted_to_device: 0 }];
    assert_eq!(f.input.update_action_state(&Vec::new()).err(), Some(InputError::NoActiveActionSet));
    assert_eq!(f.input.update_action_state(&one).err(), Some(InputError::InvalidParam));
    f.load_actions(actions_json());
    let packet = f.input.get_legacy_state().packet_num;
    assert_eq!(f.input.update_action_state(&Vec::new()).err(), Some(InputError::NoActiveActionSet));
    let bad = vec![one[0], ActiveActionSet { action_set: 77, restricted_to_device: 0 }];
    assert_eq!(f.input.update_action_state(&bad).err(), Some(InputError::InvalidHandle));
    assert_eq!(f.input.get_legacy_state().packet_num, packet);
    let request = f.input.update_action_state(&one).unwrap();
    assert_eq!(request.sets.len(), 1);
    assert!(!request.legacy);
    let i = f.loaded().try_get_set(set1).unwrap();
    assert_eq!(request.sets[0], f.loaded().sets[i].runtime_set);
    assert_eq!(f.input.get_legacy_state().packet_num, packet + 1);
}

#[test]
fn reload_manifest_on_session_restart() {
    let mut f = Fixture::new();

    let set1 = f.get_action_set_handle("/actions/set1");
    let boolact = f.get_action_handle("/actions/set1/in/boolact");

    f.load_actions(actions_json());
    f.restart_session();

    let direct = f.get_action(boolact);
    f.rt.set(direct, Val::Bool(true), Hand::Left);
    f.sync(set1);

    let state = f.get_bool_state(boolact).unwrap();
    assert!(state.state);
    assert!(state.active);
}

#[test]
fn manifest_replay_after_restart() {
    let mut f = Fixture::new();
    f.input.set_real_session(true);
    // The legacy set comes into being with the first frame.
    assert_eq!(f.frame_start_update(), FrameAction::SetupLegacy);
    assert!(f.input.get_legacy_actions().is_some());
    assert_eq!(f.frame_start_update(), FrameAction::SyncLegacy);

    let boolact = f.get_action_handle("/actions/set1/in/boolact");
    let set1 = f.get_action_set_handle("/actions/set1");
    let m = actions_json();
    // Loading now asks for a restart of the session.
    assert_eq!(f.input.set_action_manifest_path("actions.json", &m), Ok(true));
    assert!(f.input.get_legacy_actions().is_none());
    assert!(f.input.get_loaded_actions().is_some());
    f.manifest = Some(m);

    // After the restart the manifest is loaded again under the same handles.
    f.restart_session();
    assert!(f.input.get_loaded_actions().is_some());
    assert_eq!(f.get_action_handle("/actions/set1/in/boolact"), boolact);
    assert_eq!(f.get_action_set_handle("/actions/set1"), set1);
    assert!(f.loaded().try_get_action(boolact).is_some());
    // With a manifest loaded no legacy set is created.
    assert!(matches!(f.frame_start_update(), FrameAction::SyncInfoSet(_)));
    assert!(f.input.get_legacy_actions().is_none());

    // Without a manifest given, a restart loads nothing.
    f.input.post_session_restart(None).unwrap();
    assert!(f.input.get_loaded_actions().is_none());
}

#[test]
fn raw_pose_waitgetposes_and_skeletal_pose_identical() {
    let mut f = Fixture::new();
    let left_hand = f.get_input_source_handle("/user/hand/left");
    let pose_handle = f.get_action_handle("/actions/set1/in/pose");
    let skel_handle = f.get_action_handle("/actions/set1/in/skellyl");
    f.load_actions(actions_json());
    f.set_interaction_profile(Profile::Knuckles, Hand::Left);

    // The profile is reported only after a sync, so the controller is
    // connected at the second frame.
    f.frame_start_update();
    assert!(f.input.get_devices().get_controller_index(Hand::Left).is_none());
    f.poll_events();
    f.frame_start_update();
    assert!(f.input.get_devices().get_controller_index(Hand::Left).is_some());

    let seated_origin = TrackingUniverseOrigin::Seated;
    let lookup = f.input.get_controller_pose(Hand::Left, seated_origin);
    assert_eq!(lookup, Some(PoseLookup::Locate(DeviceSpace::Raw(Hand::Left))));
    let located = f.located(0x3f000000);
    let waitgetposes_pose = f.input.fill_pose(1, seated_origin, located).unwrap();
    assert_eq!(waitgetposes_pose, located);

    let raw_pose = f.input.get_pose_action_data_for_next_frame(pose_handle, seated_origin, left_hand).unwrap();
    assert!(raw_pose.active);
    assert_eq!(raw_pose.active_origin, left_hand);
    assert_eq!(raw_pose.pose, Some(PoseLookup::Cached(waitgetposes_pose)));

    let skel_pose = f.input.get_pose_action_data_for_next_frame(skel_handle, seated_origin, 0).unwrap();
    assert!(skel_pose.active);
    assert_eq!(skel_pose.active_origin, 0);
    assert_eq!(skel_pose.pose, Some(PoseLookup::Cached(waitgetposes_pose)));

    // A skeleton cannot be read for one hand only.
    assert_eq!(
        f.input.get_pose_action_data_for_next_frame(skel_handle, seated_origin, left_hand),
        Err(InputError::InvalidDevice)
    );
    // The time of a relative read is not used.
    assert_eq!(
        f.input.get_pose_action_data_relative_to_now(pose_handle, seated_origin, fx(0.5), left_hand),
        Ok(raw_pose)
    );
}

#[test]
fn pose_memoization_within_a_frame() {
    let mut f = Fixture::new();
    let seated = TrackingUniverseOrigin::Seated;
    let standing = TrackingUniverseOrigin::Standing;
    assert_eq!(f.input.get_device_pose(0, seated), Some(PoseLookup::Locate(DeviceSpace::View)));
    let first = f.located(1);
    let second = f.located(2);
    assert_eq!(f.input.fill_pose(0, seated, first), Some(first));
    // A second location in the same frame does not replace the first.
    assert_eq!(f.input.fill_pose(0, seated, second), Some(first));
    assert_eq!(f.input.get_device_pose(0, seated), Some(PoseLookup::Cached(first)));
    // The other origin has a slot of its own.
    assert_eq!(f.input.get_device_pose(0, standing), Some(PoseLookup::Locate(DeviceSpace::View)));
    assert_eq!(f.input.fill_pose(0, standing, second), Some(second));
    assert_eq!(
        f.input.get_device_pose(0, TrackingUniverseOrigin::RawAndUncalibrated),
        Some(PoseLookup::Cached(second))
    );
    // The next frame starts with an empty cache.
    f.frame_start_update();
    assert_eq!(f.input.get_device_pose(0, seated), Some(PoseLookup::Locate(DeviceSpace::View)));
    assert_eq!(f.input.fill_pose(0, seated, second), Some(second));
    // A change of the interaction profile empties the cache too.
    f.input.set_interaction_profile(Hand::Left, 5, Some(Profile::Touch));
    assert_eq!(f.input.get_device_pose(0, seated), Some(PoseLookup::Locate(DeviceSpace::View)));
    // There is no device behind the table.
    assert_eq!(f.input.get_device_pose(3, seated), None);
    assert_eq!(f.input.fill_pose(3, seated, first), None);
}

#[test]
fn poses_updated() {
    let mut f = Fixture::new();
    f.restart_session();
    f.set_interaction_profile(Profile::SimpleController, Hand::Left);
    f.set_interaction_profile(Profile::SimpleController, Hand::Right);
    f.frame_start_update();
    f.poll_events();

    let seated_origin = TrackingUniverseOrigin::Seated;
    f.frame_start_update();
    let identity = f.located(0);
    for (hand, index) in [(Hand::Left, 1), (Hand::Right, 2)] {
        assert_eq!(
            f.input.get_controller_pose(hand, seated_origin),
            Some(PoseLookup::Locate(DeviceSpace::Raw(hand)))
        );
        f.input.fill_pose(index, seated_origin, identity);
        assert_eq!(f.input.get_controller_pose(hand, seated_origin), Some(PoseLookup::Cached(identity)));
    }

    let new_pose = f.located(0x3f000000);
    f.frame_start_update();
    for (hand, index) in [(Hand::Left, 1), (Hand::Right, 2)] {
        assert_eq!(
            f.input.get_controller_pose(hand, seated_origin),
            Some(PoseLookup::Locate(DeviceSpace::Raw(hand)))
        );
        f.input.fill_pose(index, seated_origin, new_pose);
        assert_eq!(f.input.get_controller_pose(hand, seated_origin), Some(PoseLookup::Cached(new_pose)));
    }
}

fn malformed_manifest() -> ActionManifest {
    manifest(
        &["/actions/set1"],
        vec![
            action("/actions/set1/in/action with spaces", ActionType::Boolean),
            action("/actions/set1/in/action,with,commas", ActionType::Vector1),
            action("/actions/set1/in/mixed, action", ActionType::Boolean),
            action("/actions/set1/in/(action)(with)(parenthesis)", ActionType::Boolean),
            action("/actions/set1/in/ThisActionHasAReallyLongNameThatIsMostCertainlyLongerThanTheOpenXRLimit,However,ItWillBeGivenASimpleLocalizedName", ActionType::Boolean),
            action("/actions/set1/in/ThisActionWillAlsoHaveAReallyLongNameAndAShortLocalizedName,MuchLikeThePreviousAction", ActionType::Boolean),
            action("/actions/set1/in/this right here is an action that is exactly 64 characters long!", ActionType::Boolean),
        ],
        Vec::new(),
    )
}

#[test]
fn actions_with_bad_paths() {
    let mut f = Fixture::new();
    let spaces = f.get_action_handle("/actions/set1/in/action with spaces");
    let commas = f.get_action_handle("/actions/set1/in/action,with,commas");
    let mixed = f.get_action_handle("/actions/set1/in/mixed, action");
    let paren = f.get_action_handle("/actions/set1/in/(action)(with)(parenthesis)");
    let long_bad1 = f.get_action_handle("/actions/set1/in/ThisActionHasAReallyLongNameThatIsMostCertainlyLongerThanTheOpenXRLimit,However,ItWillBeGivenASimpleLocalizedName");
    let long_bad2 = f.get_action_handle("/actions/set1/in/ThisActionWillAlsoHaveAReallyLongNameAndAShortLocalizedName,MuchLikeThePreviousAction");
    let long_exact = f.get_action_handle(
        "/actions/set1/in/this right here is an action that is exactly 64 characters long!",
    );

    let set1 = f.get_action_set_handle("/actions/set1");
    f.load_actions(malformed_manifest());

    // Every name that the runtime is given is one that it takes.
    let mut names: Vec<String> = Vec::new();
    for a in f.loaded().runtime_actions.iter() {
        assert!(!a.name.is_empty() && a.name.len() <= 63, "{}", a.name);
        assert!(a.name.chars().all(|c| matches!(c, 'a'..='z' | '0'..='9' | '-' | '_' | '.')), "{}", a.name);
        assert!(!names.contains(&a.name));
        names.push(a.name.clone());
    }
    let name_of = |f: &Fixture, h: u64| f.loaded().runtime_actions[f.get_action(h) as usize].name.clone();
    assert_eq!(name_of(&f, spaces), "action_with_spaces");
    assert_eq!(name_of(&f, commas), "action_with_commas");
    assert_eq!(name_of(&f, mixed), "mixed__action");
    assert_eq!(name_of(&f, paren), "_action__with__parenthesis_");
    assert!(name_of(&f, long_bad1).starts_with("xrizer-"));
    assert_eq!(name_of(&f, long_bad1).len(), 23);
    assert!(name_of(&f, long_exact).starts_with("xrizer-"));
    assert_ne!(name_of(&f, long_bad1), name_of(&f, long_bad2));

    let set = |f: &mut Fixture, h: u64, v: Val| {
        let a = f.get_action(h);
        f.rt.set(a, v, Hand::Left);
    };
    set(&mut f, spaces, Val::Bool(true));
    set(&mut f, commas, Val::Float(0.5));
    set(&mut f, mixed, Val::Bool(true));
    set(&mut f, long_bad1, Val::Bool(false));
    set(&mut f, long_bad2, Val::Bool(false));
    set(&mut f, long_exact, Val::Bool(false));
    set(&mut f, paren, Val::Bool(false));
    f.sync(set1);

    let s = f.get_bool_state(spaces).unwrap();
    assert!(s.active);
    assert!(s.state);
    assert!(s.changed);

    let s = f.get_bool_state(mixed).unwrap();
    assert!(s.active);
    assert!(s.state);
    assert!(s.changed);

    let s = f.get_bool_state(paren).unwrap();
    assert!(s.active);
    assert!(!s.state);
    assert!(!s.changed);

    let s = f.get_bool_state(long_bad1).unwrap();
    assert!(s.active);
    assert!(!s.state);
    assert!(!s.changed);

    let s = f.get_bool_state(long_bad2).unwrap();
    assert!(s.active);
    assert!(!s.state);
    assert!(!s.changed);

    let s = f.get_bool_state(long_exact).unwrap();
    assert!(s.active);
    assert!(!s.state);
    assert!(!s.changed);

    let s = f.get_analog_state(commas).unwrap();
    assert!(s.active);
    assert_eq!(s.x, fx(0.5));
}

#[test]
fn pose_action_no_restrict() {
    let mut f = Fixture::new();

    let set1 = f.get_action_set_handle("/actions/set1");
    let posel = f.get_action_handle("/actions/set1/in/posel");
    let poser = f.get_action_handle("/actions/set1/in/poser");

    f.load_actions(actions_json());
    // The simple controller takes its bindings from the file for Vive wands.
    f.set_interaction_profile(Profile::SimpleController, Hand::Left);
    f.set_interaction_profile(Profile::SimpleController, Hand::Right);
    f.sync(set1);

    let seated = TrackingUniverseOrigin::Seated;
    let pose_left = f.located(0x3f000000);
    let pose_right = f.located(0x3f19999a);
    let left = f.input.hand_handle(Hand::Left);
    let right = f.input.hand_handle(Hand::Right);
    for (handle, hand, index, origin, expected) in
        [(posel, Hand::Left, 1, left, pose_left), (poser, Hand::Right, 2, right, pose_right)]
    {
        let actual = f.input.get_pose_action_data_for_next_frame(handle, seated, 0).unwrap();
        assert!(actual.active);
        assert_eq!(actual.active_origin, origin);
        assert_eq!(actual.pose, Some(PoseLookup::Locate(DeviceSpace::Raw(hand))));
        let p = f.input.fill_pose(index, seated, expected).unwrap();
        assert!(p.pose_is_valid);
        let actual = f.input.get_pose_action_data_for_next_frame(handle, seated, 0).unwrap();
        assert_eq!(actual.pose, Some(PoseLookup::Cached(expected)));
    }
    // A pose that is bound for the other hand only is not active.
    let other = f.input.get_pose_action_data_for_next_frame(posel, seated, right).unwrap();
    assert!(!other.active);
    assert_eq!(other.pose, None);
}

#[test]
fn raw_pose_switch_profile() {
    let mut f = Fixture::new();

    let set1 = f.get_action_set_handle("/actions/set1");
    let posel = f.get_action_handle("/actions/set1/in/posel");

    f.load_actions(actions_json());
    f.set_interaction_profile(Profile::SimpleController, Hand::Left);
    f.set_interaction_profile(Profile::SimpleController, Hand::Right);
    f.sync(set1);

    let seated = TrackingUniverseOrigin::Seated;
    let simple = f.located(1);
    f.input.fill_pose(1, seated, simple);
    let actual = f.input.get_pose_action_data_for_next_frame(posel, seated, 0).unwrap();
    assert_eq!(actual.pose, Some(PoseLookup::Cached(simple)));

    f.set_interaction_profile(Profile::Touch, Hand::Left);
    f.set_interaction_profile(Profile::Touch, Hand::Right);
    f.poll_events();
    f.frame_start_update();
    f.sync(set1);

    // The pose of the old profile is gone; the space is located anew.
    let actual = f.input.get_pose_action_data_for_next_frame(posel, seated, 0).unwrap();
    assert!(actual.active);
    assert_eq!(actual.pose, Some(PoseLookup::Locate(DeviceSpace::Raw(Hand::Left))));
}

fn actions_cased_json() -> ActionManifest {
    let set = "/actions/set1";
    manifest(
        &[set],
        vec![
            action("/actions/set1/in/BoolAct", ActionType::Boolean),
            action("/actions/set1/in/Vec1Act", ActionType::Vector1),
            action("/actions/set1/in/Vec2Act", ActionType::Vector2),
            action("/actions/set1/in/VibAct", ActionType::Vibration),
            action("/actions/set1/in/PoseAct", ActionType::Pose),
            skeleton("/actions/set1/in/SkelAct", "left"),
        ],
        vec![bindings_for(
            "vive_controller",
            vec![ActionSetBinding {
                set: "/actions/SET1".to_string(),
                sources: vec![
                    button(LEFT, "grip", "/actions/set1/in/BoolAct"),
                    source(
                        &input(LEFT, "trigger"),
                        SourceMode::Trigger,
                        SourceInputs { pull: out("/actions/set1/in/Vec1Act"), ..no_inputs() },
                        no_parameters(),
                    ),
                    source(
                        &input(LEFT, "trackpad"),
                        SourceMode::Trackpad,
                        SourceInputs { position: out("/actions/set1/in/Vec2Act"), ..no_inputs() },
                        no_parameters(),
                    ),
                ],
                poses: vec![simple("/actions/set1/in/PoseAct", "/user/hand/left/pose/raw")],
                haptics: vec![simple("/actions/set1/in/VibAct", "/user/hand/left/output/haptic")],
            }],
        )],
    )
}

#[test]
fn cased_actions() {
    let mut f = Fixture::new();
    let set1 = f.get_action_set_handle("/actions/set1");
    f.load_actions(actions_cased_json());

    let path = Profile::ViveWands;
    f.verify_bindings(ActionKind::Bool, path, "/actions/set1/in/BoolAct", &["/user/hand/left/input/squeeze/click"]);
    f.verify_bindings(ActionKind::Vector1, path, "/actions/set1/in/Vec1Act", &["/user/hand/left/input/trigger/value"]);
    f.verify_bindings(ActionKind::Vector2, path, "/actions/set1/in/Vec2Act", &["/user/hand/left/input/trackpad"]);
    f.verify_bindings(ActionKind::Haptic, path, "/actions/set1/in/VibAct", &["/user/hand/left/output/haptic"]);

    f.set_interaction_profile(Profile::ViveWands, Hand::Left);
    f.sync(set1);

    let seated = TrackingUniverseOrigin::Seated;
    let located = f.located(0);
    f.input.fill_pose(1, seated, located);

    let poseact = f.get_action_handle("/actions/set1/in/PoseAct");
    let pose = f.input.get_pose_action_data_for_next_frame(poseact, seated, 0).unwrap();
    assert!(pose.active);
    assert!(matches!(pose.pose, Some(PoseLookup::Cached(p)) if p.pose_is_valid));

    let skelact = f.get_action_handle("/actions/set1/in/SkelAct");
    let pose = f.input.get_pose_action_data_for_next_frame(skelact, seated, 0).unwrap();
    assert!(pose.active);
    assert!(matches!(pose.pose, Some(PoseLookup::Cached(p)) if p.pose_is_valid));
}

#[test]
fn digital_action_initalize_on_failure() {
    let mut f = Fixture::new();
    f.load_actions(actions_json());

    let bad_handle = 3434343343;
    assert_eq!(f.input.get_digital_action_data(bad_handle, 0), Err(InputError::InvalidHandle));

    let vecact = f.get_action_handle("/actions/set1/in/vec1act");
    assert_eq!(f.input.get_digital_action_data(vecact, 0), Err(InputError::WrongType));

    // A restriction that names no input source reads as an inactive action.
    let boolact = f.get_action_handle("/actions/set1/in/boolact");
    let state = f.input.get_digital_action_data(boolact, 12345).unwrap();
    assert!(!state.active);
    assert!(!state.state);
    assert_eq!(state.active_origin, 0);
    assert!(!state.changed);
}

#[test]
fn analog_action_initialize_on_failure() {
    let mut f = Fixture::new();
    f.load_actions(actions_json());

    let bad_handle = 3434343343;
    assert_eq!(f.input.get_analog_action_data(bad_handle, 0), Err(InputError::InvalidHandle));

    let boolact = f.get_action_handle("/actions/set1/in/boolact");
    assert_eq!(f.input.get_analog_action_data(boolact, 0), Err(InputError::WrongType));

    let vecact = f.get_action_handle("/actions/set1/in/vec1act");
    let state = f.input.get_analog_action_data(vecact, 999).unwrap();
    assert!(!state.active);
    assert_eq!(state.active_origin, 0);
    assert_eq!(state.x, Fixed::zero());
    assert_eq!(state.delta_x, Fixed::zero());
    assert_eq!(state.y, Fixed::zero());
    assert_eq!(state.delta_y, Fixed::zero());
    assert_eq!(state.z, Fixed::zero());
    assert_eq!(state.delta_z, Fixed::zero());
}

#[test]
fn analog_reads_report_deltas() {
    let mut f = Fixture::new();
    let set1 = f.get_action_set_handle("/actions/set1");
    let vec1 = f.get_action_handle(VEC1ACT);
    let vec2 = f.get_action_handle(VEC2ACT);
    f.load_actions(actions_json());
    let a1 = f.get_action(vec1);
    let a2 = f.get_action(vec2);
    f.rt.set(a1, Val::Float(0.75), Hand::Right);
    f.rt.set(a2, Val::Vec2(0.5, -0.25), Hand::Right);
    f.sync(set1);
    let s = f.get_analog_state(vec1).unwrap();
    assert!(s.active);
    assert_eq!((s.x, s.y, s.delta_x, s.delta_y), (fx(0.75), fx(0.0), fx(0.75), fx(0.0)));
    let s = f.get_analog_state(vec1).unwrap();
    assert_eq!((s.x, s.delta_x), (fx(0.75), fx(0.0)));
    let s = f.get_analog_state(vec2).unwrap();
    assert_eq!((s.x, s.y, s.delta_x, s.delta_y), (fx(0.5), fx(-0.25), fx(0.5), fx(-0.25)));
    f.rt.set(a2, Val::Vec2(0.25, 0.25), Hand::Right);
    f.sync(set1);
    let s = f.get_analog_state(vec2).unwrap();
    assert_eq!((s.x, s.y, s.delta_x, s.delta_y), (fx(0.25), fx(0.25), fx(-0.25), fx(0.5)));
    assert_eq!(s.active_origin, 0);
}

#[test]
fn implicit_action_sets() {
    let mut f = Fixture::new();
    let set1 = f.get_action_set_handle("/actions/set1");
    let boolact = f.get_action_handle("/actions/set1/in/boolact");
    f.load_actions(manifest(&[], vec![action(BOOLACT, ActionType::Boolean)], Vec::new()));

    f.sync(set1);

    let res = f.get_bool_state(boolact);
    assert!(res.is_ok(), "{res:?}");
}

#[test]
fn detect_controller_after_manifest_load() {
    let mut f = Fixture::new();
    f.load_actions(actions_json());

    // Each frame polls the events of the runtime and then starts; what a
    // frame syncs is reported by the runtime at the next.
    f.poll_events();
    assert!(matches!(f.frame_start_update(), FrameAction::SyncInfoSet(_)));
    assert!(f.input.get_devices().get_controller_index(Hand::Left).is_none());

    f.poll_events();
    f.set_interaction_profile(Profile::Knuckles, Hand::Left);
    f.frame_start_update();
    // Profile won't be set for this frame - we sync after events have already been polled
    assert!(f.input.get_devices().get_controller_index(Hand::Left).is_none());

    f.poll_events();
    f.frame_start_update();
    let index = f.input.get_devices().get_controller_index(Hand::Left);
    assert!(index.is_some_and(|i| f.input.get_devices().is_device_connected(i)));
    // The info set is synced until both controllers are there.
    assert!(matches!(f.frame_start_update(), FrameAction::SyncInfoSet(_)));
    f.input.set_interaction_profile(Hand::Right, 1, Some(Profile::Knuckles));
    assert_eq!(f.frame_start_update(), FrameAction::Idle);
}

#[test]
fn empty_manifest() {
    let mut f = Fixture::new();
    f.load_actions(manifest(&[], Vec::new(), Vec::new()));

    f.restart_session();
    assert_eq!(f.input.action_handle_count(), 0);
    assert_eq!(f.loaded().actions.len(), 0);
    assert_eq!(f.loaded().sets.len(), 0);
    // The info set is always there.
    assert_eq!(f.loaded().runtime_sets.len(), 1);
    assert_eq!(f.loaded().runtime_actions.len(), 1);
    assert_eq!(f.loaded().runtime_sets[0].name, "xrizer-info-set");
}

#[test]
fn manifest_entries_that_cannot_be_loaded_are_skipped() {
    let mut f = Fixture::new();
    f.load_actions(manifest(
        &["/actions/Main"],
        vec![
            action("/actions/main/in/Jump", ActionType::Boolean),
            action("/actions/main/in/jump", ActionType::Vector1),
            action("jump", ActionType::Boolean),
            action("/actions/main", ActionType::Boolean),
            ActionEntry { name: "/actions/main/in/hand".to_string(), ty: ActionType::Skeleton, skeleton: None },
            skeleton("/actions/main/in/lefthand", "left"),
            skeleton("/actions/main/in/middle", "middle"),
            action("/actions/other/in/act", ActionType::Pose),
        ],
        Vec::new(),
    ));
    let paths: Vec<(String, ActionKind)> =
        f.loaded().actions.iter().map(|a| (a.path.clone(), a.kind)).collect();
    assert_eq!(
        paths,
        vec![
            ("/actions/main/in/jump".to_string(), ActionKind::Bool),
            ("/actions/main/in/lefthand".to_string(), ActionKind::Skeleton),
            ("/actions/other/in/act".to_string(), ActionKind::Pose),
        ]
    );
    let sets: Vec<String> = f.loaded().sets.iter().map(|s| s.name.clone()).collect();
    assert_eq!(sets, vec!["/actions/main", "/actions/other"]);
    assert_eq!(f.loaded().actions[1].hand, Some(Hand::Left));
    assert_eq!(f.loaded().actions[1].action, None);
    let jump = f.get_action_handle("/actions/main/in/jump");
    assert_eq!(f.loaded().actions[0].handle, jump);
    let main = f.get_action_set_handle("/ACTIONS/MAIN");
    assert_eq!(f.loaded().sets[0].handle, main);
}

#[test]
fn skeletal_reads() {
    let mut f = Fixture::new();
    f.load_actions(actions_json());
    let left = f.get_action_handle("/actions/set1/in/skellyl");
    let right = f.get_action_handle("/actions/set1/in/skellyr");
    let boolact = f.get_action_handle(BOOLACT);
    let fake = f.get_action_handle("/actions/set1/in/fake");
    assert_eq!(f.input.get_bone_count(left), Ok(HAND_SKELETON_BONE_COUNT));
    assert_eq!(HAND_SKELETON_BONE_COUNT, 31);
    assert_eq!(f.input.get_bone_count(boolact), Err(InputError::WrongType));
    assert_eq!(f.input.get_bone_count(fake), Err(InputError::InvalidHandle));
    assert_eq!(
        f.input.get_skeletal_action_data(right),
        Ok(InputSkeletalActionData { active: false, active_origin: f.input.hand_handle(Hand::Right) })
    );
    let mut snapshot = Snapshot::new();
    snapshot.record(xrizer::legacy::LEGACY_FIRST_ACTION + 10, None, ActionValue::Pose(true));
    f.input.set_snapshot(snapshot);
    assert_eq!(
        f.input.get_skeletal_action_data(left),
        Ok(InputSkeletalActionData { active: true, active_origin: f.input.hand_handle(Hand::Left) })
    );
    assert_eq!(f.input.get_skeletal_tracking_level(left), Ok(SkeletalTrackingLevel::Estimated));
    f.input.set_interaction_profile(Hand::Left, 1, Some(Profile::Knuckles));
    f.input.set_interaction_profile(Hand::Right, 1, Some(Profile::Touch));
    assert_eq!(f.input.get_skeletal_tracking_level(left), Ok(SkeletalTrackingLevel::Partial));
    assert_eq!(f.input.get_skeletal_tracking_level(right), Ok(SkeletalTrackingLevel::Estimated));
    f.input.set_hand_tracking(true);
    assert_eq!(f.input.get_skeletal_tracking_level(left), Ok(SkeletalTrackingLevel::Full));
    assert_eq!(f.input.get_skeletal_tracking_level(right), Ok(SkeletalTrackingLevel::Full));
    assert_eq!(f.input.get_skeletal_tracking_level(boolact), Err(InputError::WrongType));
}

#[test]
fn haptic_vibration_action() {
    let mut f = Fixture::new();
    f.load_actions(actions_json());
    let vib = f.get_action_handle(VIB);
    let boolact = f.get_action_handle(BOOLACT);
    let right = f.input.hand_handle(Hand::Right);
    let action = f.get_action(vib);
    let request = f
        .input
        .trigger_haptic_vibration_action(vib, fx(0.5), fx(160.0), fx(1.5), right)
        .unwrap()
        .unwrap();
    assert_eq!(request.action, action);
    assert_eq!(request.hand, Some(Hand::Right));
    assert_eq!(request.duration_nanos, Some(500_000_000));
    assert_eq!(request.amplitude, fx(1.0));
    assert_eq!(request.frequency, Some(fx(160.0)));
    let request = f.input.trigger_haptic_vibration_action(vib, fx(-0.25), fx(0.0), fx(-3.0), 0).unwrap().unwrap();
    assert_eq!(request.hand, None);
    assert_eq!(request.duration_nanos, Some(-250_000_000));
    assert_eq!(request.amplitude, fx(0.0));
    let request = f.input.trigger_haptic_vibration_action(vib, fx(0.001), fx(0.0), fx(0.3), 0).unwrap().unwrap();
    assert_eq!(request.duration_nanos, Some(1_000_000));
    assert_eq!(request.amplitude, fx(0.3));
    assert_eq!(f.input.trigger_haptic_vibration_action(vib, fx(1.0), fx(0.0), fx(1.0), 4242), Ok(None));
    assert_eq!(
        f.input.trigger_haptic_vibration_action(boolact, fx(1.0), fx(0.0), fx(1.0), 0),
        Err(InputError::WrongType)
    );
    assert_eq!(
        f.input.trigger_haptic_vibration_action(17, fx(1.0), fx(0.0), fx(1.0), 0),
        Err(InputError::InvalidHandle)
    );
}

#[test]
fn poses_of_the_first_devices() {
    let mut f = Fixture::new();
    let origin = TrackingUniverseOrigin::Standing;
    let pose = f.located(7);
    assert_eq!(f.input.fill_pose(1, origin, pose), Some(pose));
    let poses = f.input.get_poses(5, origin);
    assert_eq!(
        poses,
        vec![
            Some(PoseLookup::Locate(DeviceSpace::View)),
            Some(PoseLookup::Cached(pose)),
            Some(PoseLookup::Locate(DeviceSpace::Raw(Hand::Right))),
            None,
            None,
        ]
    );
    assert_eq!(f.input.get_poses(0, origin), vec![]);
}

#[test]
fn skeletal_summary() {
    let mut f = Fixture::new();
    let unloaded = f.get_action_handle("/actions/set1/in/skellyl");
    assert_eq!(f.input.get_skeletal_summary_data(unloaded), Err(InputError::InvalidHandle));
    f.load_actions(actions_json());
    let left = f.get_action_handle("/actions/set1/in/skellyl");
    let fake = f.get_action_handle("/actions/set1/in/fake");
    let summary = f.input.get_skeletal_summary_data(left).unwrap();
    assert_eq!(summary.finger_splay, [fx(0.2); 4]);
    assert_eq!(summary.finger_curl, [fx(0.0); 5]);
    assert_eq!(f.input.get_skeletal_summary_data(fake), Err(InputError::InvalidHandle));
}

#[test]
fn events_come_with_the_pose_of_their_device() {
    let mut f = Fixture::new();
    let origin = TrackingUniverseOrigin::Seated;
    let pose = f.located(3);
    assert_eq!(f.input.poll_next_event_with_pose(origin), None);
    let press = InputEvent { ty: EventType::ButtonPress, index: 2, button: 33 };
    let release = InputEvent { ty: EventType::ButtonUnpress, index: 7, button: 33 };
    f.input.push_event(press);
    f.input.push_event(release);
    assert_eq!(f.input.event_count(), 2);
    assert_eq!(f.input.fill_pose(2, origin, pose), Some(pose));
    assert_eq!(f.input.poll_next_event_with_pose(origin), Some((press, Some(PoseLookup::Cached(pose)))));
    // The second event names a device that the table does not hold.
    assert_eq!(f.input.poll_next_event_with_pose(origin), Some((release, None)));
    assert_eq!(f.input.poll_next_event(), None);
}

#[test]
fn reference_space_change_empties_the_pose_cache() {
    let mut f = Fixture::new();
    let seated = TrackingUniverseOrigin::Seated;
    let standing = TrackingUniverseOrigin::Standing;
    let pose = f.located(9);
    assert_eq!(f.input.fill_pose(0, seated, pose), Some(pose));
    assert_eq!(f.input.fill_pose(0, standing, pose), Some(pose));
    f.input.clear_pose_cache();
    assert_eq!(f.input.get_device_pose(0, seated), Some(PoseLookup::Locate(DeviceSpace::View)));
    assert_eq!(f.input.get_device_pose(0, standing), Some(PoseLookup::Locate(DeviceSpace::View)));
}
