//! The legacy input path: a fixed action set bound on every profile, from
//! which the button masks, the axes and the button events of the old
//! controller-state interface are made while no action manifest is loaded.

use crate::events::EventQueue;
use crate::events::EventType;
use crate::events::InputEvent;
use crate::fixed::Fixed;
use crate::fixed::ONE;
use crate::profiles::Profile;
use crate::runtime::ActionState;
use crate::runtime::Hand;
use crate::runtime::HapticRequest;
use crate::runtime::RuntimeAction;
use crate::runtime::RuntimeActionView;
use crate::runtime::RuntimeKind;
use crate::runtime::RuntimeSet;
use crate::runtime::Snapshot;
use crate::runtime::Suggestion;
use crate::runtime::SuggestionView;
use vstd::prelude::*;
use vstd::string::StringExecFns;

verus! {

/// The buttons of the legacy controller state.
#[derive(Clone, Copy, Debug, PartialEq, Eq, Structural)]
pub enum EVRButtonId {
    System,
    ApplicationMenu,
    Grip,
    DPadLeft,
    DPadUp,
    DPadRight,
    DPadDown,
    A,
    ProximitySensor,
    Axis0,
    Axis1,
    Axis2,
    Axis3,
    Axis4,
}

impl EVRButtonId {
    /// The number of the button, which is also its bit in a button mask.
    pub open spec fn code(self) -> u32 {
        match self {
            EVRButtonId::System => 0,
            EVRButtonId::ApplicationMenu => 1,
            EVRButtonId::Grip => 2,
            EVRButtonId::DPadLeft => 3,
            EVRButtonId::DPadUp => 4,
            EVRButtonId::DPadRight => 5,
            EVRButtonId::DPadDown => 6,
            EVRButtonId::A => 7,
            EVRButtonId::ProximitySensor => 31,
            EVRButtonId::Axis0 => 32,
            EVRButtonId::Axis1 => 33,
            EVRButtonId::Axis2 => 34,
            EVRButtonId::Axis3 => 35,
            EVRButtonId::Axis4 => 36,
        }
    }

    /// Reads the number of the button.
    pub fn number(self) -> (r: u32)
        ensures
            r == self.code(),
            r < 64,
    {
        match self {
            EVRButtonId::System => 0,
            EVRButtonId::ApplicationMenu => 1,
            EVRButtonId::Grip => 2,
            EVRButtonId::DPadLeft => 3,
            EVRButtonId::DPadUp => 4,
            EVRButtonId::DPadRight => 5,
            EVRButtonId::DPadDown => 6,
            EVRButtonId::A => 7,
            EVRButtonId::ProximitySensor => 31,
            EVRButtonId::Axis0 => 32,
            EVRButtonId::Axis1 => 33,
            EVRButtonId::Axis2 => 34,
            EVRButtonId::Axis3 => 35,
            EVRButtonId::Axis4 => 36,
        }
    }

    /// The touchpad of a Vive wand: axis 0.
    pub fn steamvr_touchpad() -> (r: EVRButtonId)
        ensures
            r == EVRButtonId::Axis0,
    {
        EVRButtonId::Axis0
    }

    /// The trigger of a Vive wand: axis 1.
    pub fn steamvr_trigger() -> (r: EVRButtonId)
        ensures
            r == EVRButtonId::Axis1,
    {
        EVRButtonId::Axis1
    }
}

/// The mask with only the bit of `id` set.
pub open spec fn button_mask(id: EVRButtonId) -> u64 {
    1u64 << id.code()
}

/// The mask of `id` while `on`, else the empty mask.
pub open spec fn bit_if(id: EVRButtonId, on: bool) -> u64 {
    if on {
        button_mask(id)
    } else {
        0
    }
}

/// The mask with the bit of every button of `ids` set.
pub open spec fn mask_of(ids: Seq<EVRButtonId>) -> u64
    decreases ids.len(),
{
    if ids.len() == 0 {
        0
    } else {
        mask_of(ids.drop_last()) | button_mask(ids.last())
    }
}

/// Makes the mask with only the bit of `id` set.
pub fn button_mask_from_id(id: EVRButtonId) -> (r: u64)
    ensures
        r == button_mask(id),
{
    1u64 << id.number()
}

/// Makes the mask with the bit of every button of `ids` set.
pub fn button_mask_from_ids(ids: &Vec<EVRButtonId>) -> (r: u64)
    ensures
        r == mask_of(ids@),
{
    let mut mask: u64 = 0;
    let mut i: usize = 0;
    while i < ids.len()
        invariant
            i <= ids.len(),
            mask == mask_of(ids@.subrange(0, i as int)),
        decreases ids.len() - i,
    {
        assert(ids@.subrange(0, i + 1).drop_last() =~= ids@.subrange(0, i as int));
        mask = mask | button_mask_from_id(ids[i]);
        i += 1;
    }
    assert(ids@.subrange(0, ids@.len() as int) =~= ids@);
    mask
}

/// What the legacy interface remembers between syncs.
#[derive(Clone, Copy, Debug, PartialEq, Eq)]
pub struct LegacyState {
    pub packet_num: u32,
    pub got_left_state: bool,
    pub got_right_state: bool,
}

impl LegacyState {
    /// The state before the first sync.
    pub fn new() -> (r: LegacyState)
        ensures
            r == (LegacyState { packet_num: 0, got_left_state: false, got_right_state: false }),
    {
        LegacyState { packet_num: 0, got_left_state: false, got_right_state: false }
    }

    /// The packet number that follows `n`; it wraps around.
    pub open spec fn next_packet(n: u32) -> u32 {
        if n == u32::MAX {
            0
        } else {
            (n + 1) as u32
        }
    }

    /// Marks a sync: the packet number advances, and neither hand has had
    /// its state read since.
    pub fn on_action_sync(&mut self)
        ensures
            *final(self) == (LegacyState {
                packet_num: Self::next_packet(old(self).packet_num),
                got_left_state: false,
                got_right_state: false,
            }),
    {
        self.packet_num = if self.packet_num == u32::MAX {
            0
        } else {
            self.packet_num + 1
        };
        self.got_left_state = false;
        self.got_right_state = false;
    }

    /// Whether the state of `hand` has been read since the last sync.
    pub open spec fn got_state(self, hand: Hand) -> bool {
        match hand {
            Hand::Left => self.got_left_state,
            Hand::Right => self.got_right_state,
        }
    }

    /// Marks the state of `hand` as read and tells whether this read is the
    /// first since the last sync.
    pub fn first_read(&mut self, hand: Hand) -> (r: bool)
        ensures
            r == !old(self).got_state(hand),
            final(self).got_state(hand),
            final(self).packet_num == old(self).packet_num,
            final(self).got_state(Hand::Left) == (old(self).got_state(Hand::Left) || hand
                == Hand::Left),
            final(self).got_state(Hand::Right) == (old(self).got_state(Hand::Right) || hand
                == Hand::Right),
    {
        match hand {
            Hand::Left => {
                let first = !self.got_left_state;
                self.got_left_state = true;
                first
            },
            Hand::Right => {
                let first = !self.got_right_state;
                self.got_right_state = true;
                first
            },
        }
    }
}

/// The identifier of the first runtime action of the legacy set. The
/// actions of a manifest have smaller identifiers.
pub const LEGACY_FIRST_ACTION: u32 = 0xffff_ff00;

/// The runtime actions of the legacy set, by their identifiers.
#[derive(Clone, Copy, Debug, PartialEq, Eq)]
pub struct Actions {
    pub app_menu: u32,
    pub a: u32,
    pub trigger_click: u32,
    pub squeeze_click: u32,
    pub trigger: u32,
    pub squeeze: u32,
    pub main_xy: u32,
    pub main_xy_touch: u32,
    pub main_xy_click: u32,
    pub haptic: u32,
    pub grip_pose: u32,
    pub aim_pose: u32,
}

/// The legacy action set: what to create in the runtime, and the
/// identifiers of its actions.
pub struct LegacyActionData {
    pub set: RuntimeSet,
    pub actions: Actions,
    pub specs: Vec<RuntimeAction>,
}

/// A runtime action of the legacy set.
pub open spec fn legacy_spec(name: &str, localized_name: &str, kind: RuntimeKind)
    -> RuntimeActionView {
    RuntimeActionView { name: name@, localized_name: localized_name@, kind, set: 0 }
}

/// The runtime actions of the legacy set, in the order of their
/// identifiers.
pub open spec fn legacy_specs() -> Seq<RuntimeActionView> {
    seq![
        legacy_spec("app-menu", "Application Menu", RuntimeKind::Bool),
        legacy_spec("a", "A Button", RuntimeKind::Bool),
        legacy_spec("trigger-click", "Trigger Click", RuntimeKind::Bool),
        legacy_spec("grip-click", "Grip Click", RuntimeKind::Bool),
        legacy_spec("trigger", "Trigger", RuntimeKind::Float),
        legacy_spec("squeeze", "Squeeze", RuntimeKind::Float),
        legacy_spec("main-joystick", "Main Joystick/Trackpad", RuntimeKind::Vector2),
        legacy_spec("main-joystick-touch", "Main Joystick Touch", RuntimeKind::Bool),
        legacy_spec("main-joystick-click", "Main Joystick Click", RuntimeKind::Bool),
        legacy_spec("haptic", "Haptic", RuntimeKind::Haptic),
        legacy_spec("grip-pose", "Grip Pose", RuntimeKind::Pose),
        legacy_spec("aim-pose", "Aim Pose", RuntimeKind::Pose),
    ]
}

/// The identifiers of the legacy actions.
pub open spec fn legacy_actions() -> Actions {
    Actions {
        app_menu: LEGACY_FIRST_ACTION,
        a: (LEGACY_FIRST_ACTION + 1) as u32,
        trigger_click: (LEGACY_FIRST_ACTION + 2) as u32,
        squeeze_click: (LEGACY_FIRST_ACTION + 3) as u32,
        trigger: (LEGACY_FIRST_ACTION + 4) as u32,
        squeeze: (LEGACY_FIRST_ACTION + 5) as u32,
        main_xy: (LEGACY_FIRST_ACTION + 6) as u32,
        main_xy_touch: (LEGACY_FIRST_ACTION + 7) as u32,
        main_xy_click: (LEGACY_FIRST_ACTION + 8) as u32,
        haptic: (LEGACY_FIRST_ACTION + 9) as u32,
        grip_pose: (LEGACY_FIRST_ACTION + 10) as u32,
        aim_pose: (LEGACY_FIRST_ACTION + 11) as u32,
    }
}

fn make_spec(name: &str, localized_name: &str, kind: RuntimeKind) -> (r: RuntimeAction)
    ensures
        r@ == legacy_spec(name, localized_name, kind),
{
    RuntimeAction {
        name: String::from_str(name),
        localized_name: String::from_str(localized_name),
        kind,
        set: 0,
    }
}

impl LegacyActionData {
    /// True of the legacy action set as it is made: the set with the name
    /// `xrizer-legacy-set` and priority 0, the twelve legacy actions to
    /// create in it, and their identifiers.
    pub open spec fn standard(&self) -> bool {
        &&& self.set.name@ == "xrizer-legacy-set"@
        &&& self.set.localized_name@ == "XRizer Legacy Set"@
        &&& self.set.priority == 0
        &&& self.actions == legacy_actions()
        &&& self.specs@.map_values(|a: RuntimeAction| a@) == legacy_specs()
    }

    /// The legacy action set. The action at position `k` of `specs` has
    /// the identifier `LEGACY_FIRST_ACTION + k`.
    pub fn new() -> (r: LegacyActionData)
        ensures
            r.standard(),
    {
        let mut specs: Vec<RuntimeAction> = Vec::new();
        specs.push(make_spec("app-menu", "Application Menu", RuntimeKind::Bool));
        specs.push(make_spec("a", "A Button", RuntimeKind::Bool));
        specs.push(make_spec("trigger-click", "Trigger Click", RuntimeKind::Bool));
        specs.push(make_spec("grip-click", "Grip Click", RuntimeKind::Bool));
        specs.push(make_spec("trigger", "Trigger", RuntimeKind::Float));
        specs.push(make_spec("squeeze", "Squeeze", RuntimeKind::Float));
        specs.push(make_spec("main-joystick", "Main Joystick/Trackpad", RuntimeKind::Vector2));
        specs.push(make_spec("main-joystick-touch", "Main Joystick Touch", RuntimeKind::Bool));
        specs.push(make_spec("main-joystick-click", "Main Joystick Click", RuntimeKind::Bool));
        specs.push(make_spec("haptic", "Haptic", RuntimeKind::Haptic));
        specs.push(make_spec("grip-pose", "Grip Pose", RuntimeKind::Pose));
        specs.push(make_spec("aim-pose", "Aim Pose", RuntimeKind::Pose));
        assert(specs@.map_values(|a: RuntimeAction| a@) =~= legacy_specs());
        LegacyActionData {
            set: RuntimeSet {
                name: String::from_str("xrizer-legacy-set"),
                localized_name: String::from_str("XRizer Legacy Set"),
                priority: 0,
            },
            actions: Actions {
                app_menu: LEGACY_FIRST_ACTION,
                a: LEGACY_FIRST_ACTION + 1,
                trigger_click: LEGACY_FIRST_ACTION + 2,
                squeeze_click: LEGACY_FIRST_ACTION + 3,
                trigger: LEGACY_FIRST_ACTION + 4,
                squeeze: LEGACY_FIRST_ACTION + 5,
                main_xy: LEGACY_FIRST_ACTION + 6,
                main_xy_touch: LEGACY_FIRST_ACTION + 7,
                main_xy_click: LEGACY_FIRST_ACTION + 8,
                haptic: LEGACY_FIRST_ACTION + 9,
                grip_pose: LEGACY_FIRST_ACTION + 10,
                aim_pose: LEGACY_FIRST_ACTION + 11,
            },
            specs,
        }
    }
}

/// Every path of `paths`, suggested for `action`.
pub open spec fn paired(paths: Seq<&'static str>, action: u32) -> Seq<SuggestionView> {
    paths.map_values(|p: &'static str| SuggestionView { action, path: p@ })
}

/// The paths of the aim pose of the two hands. The grip pose of a hand,
/// moved to the position of its aim pose, is the pose that is reported for
/// the controller.
pub open spec fn aim_paths() -> Seq<&'static str> {
    seq!["/user/hand/left/input/aim/pose", "/user/hand/right/input/aim/pose"]
}

/// The bindings that a profile suggests for the legacy set: none for a
/// profile without legacy inputs, else the paths of the grip pose, the
/// menu button, the A button, the trigger click, the squeeze click, the
/// trigger, the squeeze, the main stick or pad with its touch and its
/// click, the haptic output, and the aim pose of each hand, in this
/// order.
pub open spec fn legacy_bindings_of(profile: Profile, actions: Actions) -> Seq<SuggestionView> {
    match profile.legacy() {
        None => Seq::empty(),
        Some(b) => paired(b.grip_pose, actions.grip_pose) + paired(b.app_menu, actions.app_menu)
            + paired(b.a, actions.a) + paired(b.trigger_click, actions.trigger_click) + paired(
            b.squeeze_click,
            actions.squeeze_click,
        ) + paired(b.trigger, actions.trigger) + paired(b.squeeze, actions.squeeze) + paired(
            b.main_xy,
            actions.main_xy,
        ) + paired(b.main_xy_touch, actions.main_xy_touch) + paired(
            b.main_xy_click,
            actions.main_xy_click,
        ) + paired(b.haptic, actions.haptic) + paired(aim_paths(), actions.aim_pose),
    }
}

fn push_paired(out: &mut Vec<Suggestion>, paths: &Vec<&'static str>, action: u32)
    ensures
        final(out)@.map_values(|s: Suggestion| s@) == old(out)@.map_values(|s: Suggestion| s@)
            + paired(paths@, action),
{
    let mut i: usize = 0;
    while i < paths.len()
        invariant
            i <= paths.len(),
            out@.map_values(|s: Suggestion| s@) == old(out)@.map_values(|s: Suggestion| s@)
                + paired(paths@.subrange(0, i as int), action),
        decreases paths.len() - i,
    {
        let ghost before = out@.map_values(|s: Suggestion| s@);
        out.push(Suggestion { action, path: String::from_str(paths[i]) });
        assert(out@.map_values(|s: Suggestion| s@) =~= before.push(
            SuggestionView { action, path: paths@[i as int]@ },
        ));
        assert(paired(paths@.subrange(0, i + 1), action) =~= paired(
            paths@.subrange(0, i as int),
            action,
        ).push(SuggestionView { action, path: paths@[i as int]@ }));
        i += 1;
        assert(out@.map_values(|s: Suggestion| s@) =~= old(out)@.map_values(|s: Suggestion| s@)
            + paired(paths@.subrange(0, i as int), action));
    }
    assert(paths@.subrange(0, paths@.len() as int) =~= paths@);
}

/// Lists the bindings to suggest for the legacy set on `profile`.
pub fn legacy_suggestions(profile: Profile, actions: &Actions) -> (r: Vec<Suggestion>)
    ensures
        r@.map_values(|s: Suggestion| s@) == legacy_bindings_of(profile, *actions),
{
    let mut out: Vec<Suggestion> = Vec::new();
    assert(out@.map_values(|s: Suggestion| s@) =~= Seq::<SuggestionView>::empty());
    match profile.legacy_bindings() {
        None => {},
        Some(b) => {
            push_paired(&mut out, &b.grip_pose, actions.grip_pose);
            assert(out@.map_values(|s: Suggestion| s@) =~= paired(
                b@.grip_pose,
                actions.grip_pose,
            ));
            push_paired(&mut out, &b.app_menu, actions.app_menu);
            push_paired(&mut out, &b.a, actions.a);
            push_paired(&mut out, &b.trigger_click, actions.trigger_click);
            push_paired(&mut out, &b.squeeze_click, actions.squeeze_click);
            push_paired(&mut out, &b.trigger, actions.trigger);
            push_paired(&mut out, &b.squeeze, actions.squeeze);
            push_paired(&mut out, &b.main_xy, actions.main_xy);
            push_paired(&mut out, &b.main_xy_touch, actions.main_xy_touch);
            push_paired(&mut out, &b.main_xy_click, actions.main_xy_click);
            push_paired(&mut out, &b.haptic, actions.haptic);
            let mut aim: Vec<&'static str> = Vec::new();
            aim.push("/user/hand/left/input/aim/pose");
            aim.push("/user/hand/right/input/aim/pose");
            assert(aim@ =~= aim_paths());
            push_paired(&mut out, &aim, actions.aim_pose);
        },
    }
    out
}

/// One axis of the legacy controller state.
#[derive(Clone, Copy, Debug, PartialEq, Eq)]
pub struct ControllerAxis {
    pub x: Fixed,
    pub y: Fixed,
}

/// The legacy controller state: a packet number, the masks of the buttons
/// pressed and touched, and five axes, of which axis 0 is the main stick
/// or pad, axis 1 the trigger and axis 2 the grip.
#[derive(Clone, Copy, Debug, PartialEq, Eq)]
pub struct VRControllerState {
    pub packet_num: u32,
    pub button_pressed: u64,
    pub button_touched: u64,
    pub axis: [ControllerAxis; 5],
}

/// The mask of the buttons that the snapshot shows pressed for `hand`.
/// The squeeze click stands for both the grip button and axis 2.
pub open spec fn pressed_mask(actions: Actions, snapshot: &Snapshot, hand: Hand) -> u64 {
    bit_if(EVRButtonId::Axis0, snapshot.bool_of(actions.main_xy_click, Some(hand)).current_state)
        | bit_if(
        EVRButtonId::Axis1,
        snapshot.bool_of(actions.trigger_click, Some(hand)).current_state,
    ) | bit_if(
        EVRButtonId::ApplicationMenu,
        snapshot.bool_of(actions.app_menu, Some(hand)).current_state,
    ) | bit_if(EVRButtonId::A, snapshot.bool_of(actions.a, Some(hand)).current_state) | bit_if(
        EVRButtonId::Grip,
        snapshot.bool_of(actions.squeeze_click, Some(hand)).current_state,
    ) | bit_if(
        EVRButtonId::Axis2,
        snapshot.bool_of(actions.squeeze_click, Some(hand)).current_state,
    )
}

/// The mask of the buttons that the snapshot shows touched for `hand`:
/// only the main stick or pad reports a touch.
pub open spec fn touched_mask(actions: Actions, snapshot: &Snapshot, hand: Hand) -> u64 {
    bit_if(EVRButtonId::Axis0, snapshot.bool_of(actions.main_xy_touch, Some(hand)).current_state)
}

/// The events of one button: first the change of its touch, if it has a
/// touch, then the change of its click.
pub open spec fn button_events(
    index: u32,
    id: EVRButtonId,
    touch: Option<ActionState<bool>>,
    click: ActionState<bool>,
) -> Seq<InputEvent> {
    (if touch.is_some() && touch.unwrap().changed_since_last_sync {
        seq![
            InputEvent {
                ty: if touch.unwrap().current_state {
                    EventType::ButtonTouch
                } else {
                    EventType::ButtonUntouch
                },
                index,
                button: id.code(),
            },
        ]
    } else {
        Seq::empty()
    }) + (if click.changed_since_last_sync {
        seq![
            InputEvent {
                ty: if click.current_state {
                    EventType::ButtonPress
                } else {
                    EventType::ButtonUnpress
                },
                index,
                button: id.code(),
            },
        ]
    } else {
        Seq::empty()
    })
}

/// The events that a read of the controller state of `hand` produces: those
/// of the main stick or pad, the trigger, the menu button, the A button,
/// the grip and axis 2, in this order.
pub open spec fn legacy_events(actions: Actions, snapshot: &Snapshot, hand: Hand, index: u32)
    -> Seq<InputEvent> {
    let h = Some(hand);
    button_events(
        index,
        EVRButtonId::Axis0,
        Some(snapshot.bool_of(actions.main_xy_touch, h)),
        snapshot.bool_of(actions.main_xy_click, h),
    ) + button_events(
        index,
        EVRButtonId::Axis1,
        None,
        snapshot.bool_of(actions.trigger_click, h),
    ) + button_events(
        index,
        EVRButtonId::ApplicationMenu,
        None,
        snapshot.bool_of(actions.app_menu, h),
    ) + button_events(index, EVRButtonId::A, None, snapshot.bool_of(actions.a, h))
        + button_events(index, EVRButtonId::Grip, None, snapshot.bool_of(actions.squeeze_click, h))
        + button_events(
        index,
        EVRButtonId::Axis2,
        None,
        snapshot.bool_of(actions.squeeze_click, h),
    )
}

fn bit(id: EVRButtonId, on: bool) -> (r: u64)
    ensures
        r == bit_if(id, on),
{
    if on {
        button_mask_from_id(id)
    } else {
        0
    }
}

fn push_button_events(
    events: &mut EventQueue,
    index: u32,
    id: EVRButtonId,
    touch: Option<ActionState<bool>>,
    click: ActionState<bool>,
)
    ensures
        final(events)@ == old(events)@ + button_events(index, id, touch, click),
{
    match touch {
        Some(t) => {
            if t.changed_since_last_sync {
                events.push_back(
                    InputEvent {
                        ty: if t.current_state {
                            EventType::ButtonTouch
                        } else {
                            EventType::ButtonUntouch
                        },
                        index,
                        button: id.number(),
                    },
                );
            }
        },
        None => {},
    }
    if click.changed_since_last_sync {
        events.push_back(
            InputEvent {
                ty: if click.current_state {
                    EventType::ButtonPress
                } else {
                    EventType::ButtonUnpress
                },
                index,
                button: id.number(),
            },
        );
    }
    assert(events@ =~= old(events)@ + button_events(index, id, touch, click));
}

/// Reads the masks of the buttons pressed and touched.
pub fn button_masks(actions: &Actions, snapshot: &Snapshot, hand: Hand) -> (r: (u64, u64))
    ensures
        r.0 == pressed_mask(*actions, snapshot, hand),
        r.1 == touched_mask(*actions, snapshot, hand),
{
    let h = Some(hand);
    let xy_click = snapshot.bool_state(actions.main_xy_click, h).current_state;
    let xy_touch = snapshot.bool_state(actions.main_xy_touch, h).current_state;
    let trigger_click = snapshot.bool_state(actions.trigger_click, h).current_state;
    let app_menu = snapshot.bool_state(actions.app_menu, h).current_state;
    let a = snapshot.bool_state(actions.a, h).current_state;
    let squeeze_click = snapshot.bool_state(actions.squeeze_click, h).current_state;
    let pressed: u64 = bit(EVRButtonId::Axis0, xy_click) | bit(EVRButtonId::Axis1, trigger_click)
        | bit(EVRButtonId::ApplicationMenu, app_menu) | bit(EVRButtonId::A, a) | bit(
        EVRButtonId::Grip,
        squeeze_click,
    ) | bit(EVRButtonId::Axis2, squeeze_click);
    let touched: u64 = bit(EVRButtonId::Axis0, xy_touch);
    (pressed, touched)
}

/// Appends the button events that a read of the controller state of
/// `hand` produces.
pub fn push_legacy_events(
    actions: &Actions,
    snapshot: &Snapshot,
    hand: Hand,
    device_index: u32,
    events: &mut EventQueue,
)
    ensures
        final(events)@ == old(events)@ + legacy_events(*actions, snapshot, hand, device_index),
{
    let h = Some(hand);
    let xy_click = snapshot.bool_state(actions.main_xy_click, h);
    let xy_touch = snapshot.bool_state(actions.main_xy_touch, h);
    let trigger_click = snapshot.bool_state(actions.trigger_click, h);
    let app_menu = snapshot.bool_state(actions.app_menu, h);
    let a = snapshot.bool_state(actions.a, h);
    let squeeze_click = snapshot.bool_state(actions.squeeze_click, h);
    let ghost e0 = button_events(device_index, EVRButtonId::Axis0, Some(xy_touch), xy_click);
    let ghost e1 = button_events(device_index, EVRButtonId::Axis1, None, trigger_click);
    let ghost e2 = button_events(device_index, EVRButtonId::ApplicationMenu, None, app_menu);
    let ghost e3 = button_events(device_index, EVRButtonId::A, None, a);
    let ghost e4 = button_events(device_index, EVRButtonId::Grip, None, squeeze_click);
    let ghost e5 = button_events(device_index, EVRButtonId::Axis2, None, squeeze_click);
    push_button_events(events, device_index, EVRButtonId::Axis0, Some(xy_touch), xy_click);
    push_button_events(events, device_index, EVRButtonId::Axis1, None, trigger_click);
    push_button_events(events, device_index, EVRButtonId::ApplicationMenu, None, app_menu);
    push_button_events(events, device_index, EVRButtonId::A, None, a);
    push_button_events(events, device_index, EVRButtonId::Grip, None, squeeze_click);
    push_button_events(events, device_index, EVRButtonId::Axis2, None, squeeze_click);
    assert(events@ == old(events)@ + e0 + e1 + e2 + e3 + e4 + e5);
    assert(old(events)@ + e0 + e1 + e2 + e3 + e4 + e5 =~= old(events)@ + (e0 + e1 + e2 + e3 + e4
        + e5));
}

/// Composes the controller state of `hand` from the snapshot. The state
/// carries the given packet number; axis 0 is the main stick or pad, axis
/// 1 the trigger, axis 2 the squeeze, and the other axes are zero.
pub fn read_controller_state(actions: &Actions, snapshot: &Snapshot, hand: Hand, packet_num: u32)
    -> (r: VRControllerState)
    ensures
        r.packet_num == packet_num,
        r.button_pressed == pressed_mask(*actions, snapshot, hand),
        r.button_touched == touched_mask(*actions, snapshot, hand),
        r.axis@[0] == (ControllerAxis {
            x: snapshot.vector2_of(actions.main_xy, Some(hand)).current_state.x,
            y: snapshot.vector2_of(actions.main_xy, Some(hand)).current_state.y,
        }),
        r.axis@[1] == (ControllerAxis {
            x: snapshot.float_of(actions.trigger, Some(hand)).current_state,
            y: Fixed { raw: 0 },
        }),
        r.axis@[2] == (ControllerAxis {
            x: snapshot.float_of(actions.squeeze, Some(hand)).current_state,
            y: Fixed { raw: 0 },
        }),
        r.axis@[3] == (ControllerAxis { x: Fixed { raw: 0 }, y: Fixed { raw: 0 } }),
        r.axis@[4] == (ControllerAxis { x: Fixed { raw: 0 }, y: Fixed { raw: 0 } }),
{
    let h = Some(hand);
    let masks = button_masks(actions, snapshot, hand);
    let j = snapshot.vector2_state(actions.main_xy, h);
    let t = snapshot.float_state(actions.trigger, h);
    let s = snapshot.float_state(actions.squeeze, h);
    let zero = ControllerAxis { x: Fixed { raw: 0 }, y: Fixed { raw: 0 } };
    VRControllerState {
        packet_num,
        button_pressed: masks.0,
        button_touched: masks.1,
        axis: [
            ControllerAxis { x: j.current_state.x, y: j.current_state.y },
            ControllerAxis { x: t.current_state, y: Fixed { raw: 0 } },
            ControllerAxis { x: s.current_state, y: Fixed { raw: 0 } },
            zero,
            zero,
        ],
    }
}

/// The vibration that a legacy haptic pulse of `duration_us` microseconds
/// asks of `action`: full amplitude, a frequency left to the runtime, and
/// the duration in nanoseconds.
pub open spec fn legacy_pulse(action: u32, hand: Hand, duration_us: u16) -> HapticRequest {
    HapticRequest {
        action,
        hand: Some(hand),
        duration_nanos: Some((duration_us * 1000) as i64),
        amplitude: Fixed { raw: ONE },
        frequency: None,
    }
}

/// Makes the vibration that a legacy haptic pulse asks for.
pub fn legacy_haptic_request(action: u32, hand: Hand, duration_us: u16) -> (r: HapticRequest)
    ensures
        r == legacy_pulse(action, hand, duration_us),
{
    HapticRequest {
        action,
        hand: Some(hand),
        duration_nanos: Some(duration_us as i64 * 1000),
        amplitude: Fixed { raw: ONE },
        frequency: None,
    }
}

} // verus!
