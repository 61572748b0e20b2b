//! Evaluators that synthesize a boolean from other runtime actions: a dpad
//! direction from a two-axis input, a grab from force and squeeze, a toggle
//! from a button, and a click from an analog value.
//!
//! Each evaluator keeps a small latch. Between two syncs a binding computes
//! its state once and answers every further read with the stored result.

use crate::fixed::Fixed;
use crate::fixed::HALF;
use crate::runtime::same_hand;
use crate::runtime::ActionState;
use crate::runtime::Hand;
use crate::runtime::HapticRequest;
use crate::runtime::Snapshot;
use crate::runtime::Vector2;
use vstd::prelude::*;

verus! {

/// The raw value above which a force-activated dpad becomes active.
pub const DPAD_CLICK_THRESHOLD: i64 = 1417339264;

/// The raw value above which an active force-activated dpad stays active.
pub const DPAD_RELEASE_THRESHOLD: i64 = 858993472;

/// The raw amplitude of the pulse given when a dpad direction is entered.
pub const DPAD_PULSE_AMPLITUDE: i64 = 0x4000_0000;

/// The raw pressure that begins a grab unless the binding says otherwise.
pub const DEFAULT_GRAB_THRESHOLD: i64 = 3006477056;

/// The raw pressure at or below which a grab ends unless the binding says
/// otherwise.
pub const DEFAULT_GRAB_RELEASE_THRESHOLD: i64 = 2791728640;

/// The raw value that counts as a click unless the binding says otherwise.
pub const DEFAULT_CLICK_THRESHOLD: i64 = 1073741824;

/// The raw value below which a click ends unless the binding says otherwise.
pub const DEFAULT_RELEASE_THRESHOLD: i64 = 858993472;

/// The part of a two-axis input that a dpad binding watches.
#[derive(Clone, Copy, Debug, PartialEq, Eq, Structural)]
pub enum DpadDirection {
    North,
    East,
    South,
    West,
    Center,
}

/// The runtime actions behind a dpad. They are shared by every direction
/// bound to the same physical input within one action set.
#[derive(Clone, Copy, Debug, PartialEq, Eq)]
pub struct DpadActions {
    pub xy: u32,
    pub click_or_touch: Option<u32>,
    pub haptic: Option<u32>,
}

/// One direction of a dpad.
#[derive(Clone, Copy, Debug, PartialEq, Eq)]
pub struct DpadData {
    pub actions: DpadActions,
    pub direction: DpadDirection,
    pub last_state: bool,
    pub active: bool,
    pub changed: bool,
}

/// The state of a binding after an evaluation, and the pulse it asks for.
#[derive(Clone, Copy, Debug, PartialEq, Eq)]
pub struct Evaluation {
    pub state: Option<ActionState<bool>>,
    pub pulse: Option<HapticRequest>,
}

/// True when the point lies in the part of the pad that `direction` names.
/// The four outer parts are quarter-planes around the axes, each with both
/// of its diagonals, outside the circle of radius one half; the center is
/// the inside of that circle.
pub open spec fn in_bounds(direction: DpadDirection, point: Vector2) -> bool {
    let far = Fixed::reaches(point.x, point.y, Fixed { raw: HALF });
    match direction {
        DpadDirection::North => far && point.y.units() >= point.x.abs_units(),
        DpadDirection::East => far && point.x.units() >= point.y.abs_units(),
        DpadDirection::South => far && -point.y.units() >= point.x.abs_units(),
        DpadDirection::West => far && -point.x.units() >= point.y.abs_units(),
        DpadDirection::Center => !far,
    }
}

/// True when the activator lets the dpad report. An activator that is not
/// bound in the current profile lets it report always; a bound one has to
/// exceed the click threshold, or the release threshold once the direction
/// is held.
pub open spec fn activator_open(held: bool, activator: Option<ActionState<Fixed>>) -> bool {
    match activator {
        None => true,
        Some(s) => !s.is_active || s.current_state.units() > (if held {
            DPAD_RELEASE_THRESHOLD
        } else {
            DPAD_CLICK_THRESHOLD
        }),
    }
}

/// The pulse that marks the entry into a dpad direction.
pub open spec fn entry_pulse(action: u32, hand: Hand) -> HapticRequest {
    HapticRequest {
        action,
        hand: Some(hand),
        duration_nanos: None,
        amplitude: Fixed { raw: DPAD_PULSE_AMPLITUDE },
        frequency: None,
    }
}

/// Decides whether the point lies in the part that `direction` names.
pub fn point_in_bounds(direction: DpadDirection, point: Vector2) -> (r: bool)
    ensures
        r == in_bounds(direction, point),
{
    let far = Fixed::norm_at_least(point.x, point.y, Fixed { raw: HALF });
    let ax: u64 = point.x.magnitude();
    let ay: u64 = point.y.magnitude();
    match direction {
        DpadDirection::North => far && point.y.raw >= 0 && point.y.raw as u64 >= ax,
        DpadDirection::East => far && point.x.raw >= 0 && point.x.raw as u64 >= ay,
        DpadDirection::South => far && point.y.raw <= 0 && ay >= ax,
        DpadDirection::West => far && point.x.raw <= 0 && ax >= ay,
        DpadDirection::Center => !far,
    }
}

impl DpadData {
    /// A dpad direction that has not reported yet.
    pub fn new(actions: DpadActions, direction: DpadDirection) -> (r: DpadData)
        ensures
            r == (DpadData { actions, direction, last_state: false, active: false, changed: false }),
    {
        DpadData { actions, direction, last_state: false, active: false, changed: false }
    }

    /// The evaluator after it has seen `parent` and `activator`.
    pub open spec fn next(
        self,
        parent: ActionState<Vector2>,
        activator: Option<ActionState<Fixed>>,
    ) -> DpadData {
        if !activator_open(self.last_state, activator) {
            DpadData { last_state: false, active: false, changed: self.last_state, ..self }
        } else {
            let inside = in_bounds(self.direction, parent.current_state);
            DpadData {
                last_state: inside,
                active: true,
                changed: inside != self.last_state,
                ..self
            }
        }
    }

    /// What the evaluator reports for `parent` and `activator`: nothing
    /// while the activator is closed, else whether the point is in bounds,
    /// and whether that differs from the last report.
    pub open spec fn output(
        self,
        parent: ActionState<Vector2>,
        activator: Option<ActionState<Fixed>>,
    ) -> Option<ActionState<bool>> {
        if !activator_open(self.last_state, activator) {
            None
        } else {
            let inside = in_bounds(self.direction, parent.current_state);
            Some(
                ActionState {
                    current_state: inside,
                    changed_since_last_sync: inside != self.last_state,
                    last_change_time: parent.last_change_time,
                    is_active: parent.is_active,
                },
            )
        }
    }

    /// True when the evaluation enters the direction.
    pub open spec fn enters(
        self,
        parent: ActionState<Vector2>,
        activator: Option<ActionState<Fixed>>,
    ) -> bool {
        activator_open(self.last_state, activator) && in_bounds(
            self.direction,
            parent.current_state,
        ) && !self.last_state
    }

    /// Evaluates the direction against what its actions report for `hand`.
    /// A pulse is asked for exactly when the direction is entered and a
    /// haptic action is bound.
    pub fn state(&mut self, snapshot: &Snapshot, hand: Hand) -> (r: Evaluation)
        ensures
            *final(self) == old(self).next(
                snapshot.vector2_of(old(self).actions.xy, Some(hand)),
                old(self).activator_reading(snapshot, hand),
            ),
            r.state == old(self).output(
                snapshot.vector2_of(old(self).actions.xy, Some(hand)),
                old(self).activator_reading(snapshot, hand),
            ),
            r.pulse == (if old(self).enters(
                snapshot.vector2_of(old(self).actions.xy, Some(hand)),
                old(self).activator_reading(snapshot, hand),
            ) && old(self).actions.haptic.is_some() {
                Some(entry_pulse(old(self).actions.haptic.unwrap(), hand))
            } else {
                None
            }),
    {
        let parent = snapshot.vector2_state(self.actions.xy, Some(hand));
        let last_active = self.last_state;
        let threshold: i64 = if last_active {
            DPAD_RELEASE_THRESHOLD
        } else {
            DPAD_CLICK_THRESHOLD
        };
        let open = match self.actions.click_or_touch {
            Some(a) => {
                let s = snapshot.float_state(a, Some(hand));
                !s.is_active || s.current_state.raw > threshold
            },
            None => true,
        };
        if !open {
            self.changed = last_active;
            self.last_state = false;
            self.active = false;
            return Evaluation { state: None, pulse: None };
        }
        let inside = point_in_bounds(self.direction, parent.current_state);
        let changed = inside != last_active;
        self.last_state = inside;
        self.changed = changed;
        self.active = true;
        let pulse = if changed && inside {
            match self.actions.haptic {
                Some(h) => Some(
                    HapticRequest {
                        action: h,
                        hand: Some(hand),
                        duration_nanos: None,
                        amplitude: Fixed { raw: DPAD_PULSE_AMPLITUDE },
                        frequency: None,
                    },
                ),
                None => None,
            }
        } else {
            None
        };
        Evaluation {
            state: Some(
                ActionState {
                    current_state: inside,
                    changed_since_last_sync: changed,
                    last_change_time: parent.last_change_time,
                    is_active: parent.is_active,
                },
            ),
            pulse,
        }
    }

    /// What the activator of this dpad reports, if it has one.
    pub open spec fn activator_reading(self, snapshot: &Snapshot, hand: Hand) -> Option<
        ActionState<Fixed>,
    > {
        match self.actions.click_or_touch {
            Some(a) => Some(snapshot.float_of(a, Some(hand))),
            None => None,
        }
    }
}

/// The two runtime actions behind a grab.
#[derive(Clone, Copy, Debug, PartialEq, Eq)]
pub struct GrabActions {
    pub force_action: u32,
    pub value_action: u32,
}

/// A grab: squeeze-and-hold with hysteresis.
#[derive(Clone, Copy, Debug, PartialEq, Eq)]
pub struct GrabBindingData {
    pub hold_threshold: Fixed,
    pub release_threshold: Fixed,
    pub last_state: bool,
}

/// The pressure of a grab in units: the force plus one, as the runtime
/// computes the sum, while there is any force, else the squeeze value.
pub open spec fn grab_pressure(force: Fixed, value: Fixed) -> int {
    if force.units() > 0 {
        force.plus_one_units()
    } else {
        value.units()
    }
}

impl GrabBindingData {
    /// A grab that is not held, with the given thresholds; a threshold
    /// that is not given takes its default.
    pub open spec fn made(grab_threshold: Option<Fixed>, release_threshold: Option<Fixed>)
        -> GrabBindingData {
        GrabBindingData {
            hold_threshold: match grab_threshold {
                Some(t) => t,
                None => Fixed { raw: DEFAULT_GRAB_THRESHOLD },
            },
            release_threshold: match release_threshold {
                Some(t) => t,
                None => Fixed { raw: DEFAULT_GRAB_RELEASE_THRESHOLD },
            },
            last_state: false,
        }
    }

    /// Makes a grab that is not held. A threshold that is not given takes
    /// its default.
    pub fn new(grab_threshold: Option<Fixed>, release_threshold: Option<Fixed>) -> (r:
        GrabBindingData)
        ensures
            r == Self::made(grab_threshold, release_threshold),
    {
        GrabBindingData {
            hold_threshold: match grab_threshold {
                Some(t) => t,
                None => Fixed { raw: DEFAULT_GRAB_THRESHOLD },
            },
            release_threshold: match release_threshold {
                Some(t) => t,
                None => Fixed { raw: DEFAULT_GRAB_RELEASE_THRESHOLD },
            },
            last_state: false,
        }
    }

    /// Whether the grab is held once it has seen `pressure`: a grab that is
    /// not held begins at the hold threshold, and one that is held lasts
    /// while the pressure is above the release threshold.
    pub open spec fn grabbed(self, pressure: int) -> bool {
        if self.last_state {
            pressure > self.release_threshold.units()
        } else {
            pressure >= self.hold_threshold.units()
        }
    }

    /// The latch after the evaluator has seen `force` and `value`.
    pub open spec fn next(self, force: ActionState<Fixed>, value: ActionState<Fixed>) -> bool {
        if !force.is_active || !value.is_active {
            false
        } else {
            self.grabbed(grab_pressure(force.current_state, value.current_state))
        }
    }

    /// What the evaluator reports for `force` and `value`: nothing unless
    /// both are active.
    pub open spec fn output(self, force: ActionState<Fixed>, value: ActionState<Fixed>) -> Option<
        ActionState<bool>,
    > {
        if !force.is_active || !value.is_active {
            None
        } else {
            let held = self.grabbed(grab_pressure(force.current_state, value.current_state));
            Some(
                ActionState {
                    current_state: held,
                    changed_since_last_sync: held != self.last_state,
                    last_change_time: force.last_change_time,
                    is_active: true,
                },
            )
        }
    }

    /// Evaluates the grab against what its two actions report.
    pub fn state(&mut self, force: ActionState<Fixed>, value: ActionState<Fixed>) -> (r: Option<
        ActionState<bool>,
    >)
        ensures
            r == old(self).output(force, value),
            final(self).last_state == old(self).next(force, value),
            final(self).hold_threshold == old(self).hold_threshold,
            final(self).release_threshold == old(self).release_threshold,
    {
        if !force.is_active || !value.is_active {
            self.last_state = false;
            return None;
        }
        let prev = self.last_state;
        let held = if force.current_state.raw > 0 {
            let pressure = force.current_state.plus_one();
            if prev {
                pressure.raw > self.release_threshold.raw
            } else {
                pressure.raw >= self.hold_threshold.raw
            }
        } else {
            if prev {
                value.current_state.raw > self.release_threshold.raw
            } else {
                value.current_state.raw >= self.hold_threshold.raw
            }
        };
        self.last_state = held;
        Some(
            ActionState {
                current_state: held,
                changed_since_last_sync: held != prev,
                last_change_time: force.last_change_time,
                is_active: true,
            },
        )
    }
}

/// A toggle: a latch that a press of the source flips.
#[derive(Clone, Copy, Debug, PartialEq, Eq)]
pub struct ToggleData {
    pub last_state: bool,
}

impl ToggleData {
    /// A toggle that is off.
    pub fn new() -> (r: ToggleData)
        ensures
            !r.last_state,
    {
        ToggleData { last_state: false }
    }

    /// True when the source was pressed at this sync.
    pub open spec fn rising(source: ActionState<bool>) -> bool {
        source.changed_since_last_sync && source.current_state
    }

    /// The latch after the evaluator has seen `source`.
    pub open spec fn next(self, source: ActionState<bool>) -> bool {
        if !source.is_active {
            self.last_state
        } else if Self::rising(source) {
            !self.last_state
        } else {
            self.last_state
        }
    }

    /// What the evaluator reports for `source`: nothing while the source is
    /// inactive, else the latch, changed exactly when it flipped.
    pub open spec fn output(self, source: ActionState<bool>) -> Option<ActionState<bool>> {
        if !source.is_active {
            None
        } else {
            Some(
                ActionState {
                    current_state: self.next(source),
                    changed_since_last_sync: Self::rising(source),
                    last_change_time: source.last_change_time,
                    is_active: true,
                },
            )
        }
    }

    /// Evaluates the toggle against what its source reports.
    pub fn state(&mut self, source: ActionState<bool>) -> (r: Option<ActionState<bool>>)
        ensures
            r == old(self).output(source),
            final(self).last_state == old(self).next(source),
    {
        if !source.is_active {
            return None;
        }
        let s = self.last_state;
        let current_state = if source.changed_since_last_sync && source.current_state {
            !s
        } else {
            s
        };
        let changed = current_state != s;
        self.last_state = current_state;
        Some(
            ActionState {
                current_state,
                changed_since_last_sync: changed,
                last_change_time: source.last_change_time,
                is_active: true,
            },
        )
    }
}

/// What a threshold binding measures.
#[derive(Clone, Copy, Debug, PartialEq, Eq, Structural)]
pub enum ThresholdSource {
    /// The value of a float action.
    Float,
    /// The length of a two-axis action.
    Vector2,
}

/// A click made from an analog value, with hysteresis.
#[derive(Clone, Copy, Debug, PartialEq, Eq)]
pub struct ThresholdBindingData {
    pub click_threshold: Fixed,
    pub release_threshold: Fixed,
    pub last_state: bool,
}

/// An analog measure: a value, or a point whose length is meant.
#[derive(Clone, Copy, Debug, PartialEq, Eq)]
pub enum Measure {
    Value(Fixed),
    Length(Vector2),
}

impl Measure {
    /// True when the measure is `threshold` or more.
    pub open spec fn at_least(self, threshold: Fixed) -> bool {
        match self {
            Measure::Value(v) => v.units() >= threshold.units(),
            Measure::Length(p) => Fixed::reaches(p.x, p.y, threshold),
        }
    }

    /// Decides whether the measure is `threshold` or more.
    pub fn reaches(self, threshold: Fixed) -> (r: bool)
        ensures
            r == self.at_least(threshold),
    {
        match self {
            Measure::Value(v) => v.raw >= threshold.raw,
            Measure::Length(p) => Fixed::norm_at_least(p.x, p.y, threshold),
        }
    }
}

impl ThresholdBindingData {
    /// A threshold binding that is not pressed, with the given
    /// thresholds; a threshold that is not given takes its default.
    pub open spec fn made(click_threshold: Option<Fixed>, release_threshold: Option<Fixed>)
        -> ThresholdBindingData {
        ThresholdBindingData {
            click_threshold: match click_threshold {
                Some(t) => t,
                None => Fixed { raw: DEFAULT_CLICK_THRESHOLD },
            },
            release_threshold: match release_threshold {
                Some(t) => t,
                None => Fixed { raw: DEFAULT_RELEASE_THRESHOLD },
            },
            last_state: false,
        }
    }

    /// Makes a threshold binding that is not pressed. A threshold that is
    /// not given takes its default.
    pub fn new(click_threshold: Option<Fixed>, release_threshold: Option<Fixed>) -> (r:
        ThresholdBindingData)
        ensures
            r == Self::made(click_threshold, release_threshold),
    {
        ThresholdBindingData {
            click_threshold: match click_threshold {
                Some(t) => t,
                None => Fixed { raw: DEFAULT_CLICK_THRESHOLD },
            },
            release_threshold: match release_threshold {
                Some(t) => t,
                None => Fixed { raw: DEFAULT_RELEASE_THRESHOLD },
            },
            last_state: false,
        }
    }

    /// The threshold that applies: the release threshold while pressed,
    /// else the click threshold.
    pub open spec fn threshold(self) -> Fixed {
        if self.last_state {
            self.release_threshold
        } else {
            self.click_threshold
        }
    }

    /// The latch after the evaluator has seen `source`.
    pub open spec fn next(self, source: ActionState<Measure>) -> bool {
        if !source.is_active {
            self.last_state
        } else {
            source.current_state.at_least(self.threshold())
        }
    }

    /// What the evaluator reports for `source`: nothing while the source is
    /// inactive, else whether the measure reaches the threshold that
    /// applies.
    pub open spec fn output(self, source: ActionState<Measure>) -> Option<ActionState<bool>> {
        if !source.is_active {
            None
        } else {
            let pressed = source.current_state.at_least(self.threshold());
            Some(
                ActionState {
                    current_state: pressed,
                    changed_since_last_sync: pressed != self.last_state,
                    last_change_time: source.last_change_time,
                    is_active: true,
                },
            )
        }
    }

    /// Evaluates the binding against what its source reports.
    pub fn state(&mut self, source: ActionState<Measure>) -> (r: Option<ActionState<bool>>)
        ensures
            r == old(self).output(source),
            final(self).last_state == old(self).next(source),
            final(self).click_threshold == old(self).click_threshold,
            final(self).release_threshold == old(self).release_threshold,
    {
        if !source.is_active {
            return None;
        }
        let s = self.last_state;
        let threshold = if s {
            self.release_threshold
        } else {
            self.click_threshold
        };
        let current_state = source.current_state.reaches(threshold);
        self.last_state = current_state;
        Some(
            ActionState {
                current_state,
                changed_since_last_sync: current_state != s,
                last_change_time: source.last_change_time,
                is_active: true,
            },
        )
    }
}

/// What a binding is made of.
#[derive(Clone, Copy, Debug, PartialEq, Eq)]
pub enum BindingType {
    Dpad(DpadData),
    Toggle(ToggleData),
    Grab(GrabBindingData),
    ThresholdFloat(ThresholdBindingData),
    ThresholdVec2(ThresholdBindingData),
}

/// Whether a binding has computed its state since the last sync.
#[derive(Clone, Copy, Debug, PartialEq, Eq)]
pub enum BindingState {
    Unsynced,
    Synced(Option<ActionState<bool>>),
}

/// The extra runtime actions that the custom bindings of one action read.
#[derive(Clone, Copy, Debug, PartialEq, Eq)]
pub struct ExtraActionData {
    pub toggle_action: Option<u32>,
    pub analog_action: Option<u32>,
    pub vector2_action: Option<u32>,
    pub grab_actions: Option<GrabActions>,
}

/// A custom binding of one action for one hand.
#[derive(Clone, Copy, Debug, PartialEq, Eq)]
pub struct BindingData {
    pub ty: BindingType,
    pub hand: Hand,
    pub last_state: BindingState,
}

/// A float state as the measure of a threshold binding.
pub open spec fn value_measure(s: ActionState<Fixed>) -> ActionState<Measure> {
    ActionState {
        current_state: Measure::Value(s.current_state),
        changed_since_last_sync: s.changed_since_last_sync,
        last_change_time: s.last_change_time,
        is_active: s.is_active,
    }
}

/// A two-axis state as the measure of a threshold binding.
pub open spec fn length_measure(s: ActionState<Vector2>) -> ActionState<Measure> {
    ActionState {
        current_state: Measure::Length(s.current_state),
        changed_since_last_sync: s.changed_since_last_sync,
        last_change_time: s.last_change_time,
        is_active: s.is_active,
    }
}

impl ExtraActionData {
    /// No extra action.
    pub open spec fn none() -> ExtraActionData {
        ExtraActionData {
            toggle_action: None,
            analog_action: None,
            vector2_action: None,
            grab_actions: None,
        }
    }

    /// No extra action.
    pub fn new() -> (r: ExtraActionData)
        ensures
            r == Self::none(),
    {
        ExtraActionData {
            toggle_action: None,
            analog_action: None,
            vector2_action: None,
            grab_actions: None,
        }
    }
}

impl BindingData {
    /// A binding that has not computed its state.
    pub fn new(ty: BindingType, hand: Hand) -> (r: BindingData)
        ensures
            r == (BindingData { ty, hand, last_state: BindingState::Unsynced }),
    {
        BindingData { ty, hand, last_state: BindingState::Unsynced }
    }

    /// Forgets the stored result, so that the next read computes anew.
    pub fn unsync(&mut self)
        ensures
            *final(self) == (BindingData { last_state: BindingState::Unsynced, ..*old(self) }),
    {
        self.last_state = BindingState::Unsynced;
    }

    /// True when the extra action that the binding reads exists.
    pub open spec fn has_source(self, extra: ExtraActionData) -> bool {
        match self.ty {
            BindingType::Dpad(_) => true,
            BindingType::Toggle(_) => extra.toggle_action.is_some(),
            BindingType::Grab(_) => extra.grab_actions.is_some(),
            BindingType::ThresholdFloat(_) => extra.analog_action.is_some(),
            BindingType::ThresholdVec2(_) => extra.vector2_action.is_some(),
        }
    }

    /// The evaluator after a fresh evaluation, where `has_source`.
    pub open spec fn fresh_type(self, snapshot: &Snapshot, extra: ExtraActionData) -> BindingType {
        let hand = Some(self.hand);
        match self.ty {
            BindingType::Dpad(d) => BindingType::Dpad(
                d.next(
                    snapshot.vector2_of(d.actions.xy, hand),
                    d.activator_reading(snapshot, self.hand),
                ),
            ),
            BindingType::Toggle(t) => BindingType::Toggle(
                ToggleData {
                    last_state: t.next(snapshot.bool_of(extra.toggle_action.unwrap(), hand)),
                },
            ),
            BindingType::Grab(g) => BindingType::Grab(
                GrabBindingData {
                    last_state: g.next(
                        snapshot.float_of(extra.grab_actions.unwrap().force_action, hand),
                        snapshot.float_of(extra.grab_actions.unwrap().value_action, hand),
                    ),
                    ..g
                },
            ),
            BindingType::ThresholdFloat(t) => BindingType::ThresholdFloat(
                ThresholdBindingData {
                    last_state: t.next(
                        value_measure(snapshot.float_of(extra.analog_action.unwrap(), hand)),
                    ),
                    ..t
                },
            ),
            BindingType::ThresholdVec2(t) => BindingType::ThresholdVec2(
                ThresholdBindingData {
                    last_state: t.next(
                        length_measure(snapshot.vector2_of(extra.vector2_action.unwrap(), hand)),
                    ),
                    ..t
                },
            ),
        }
    }

    /// What a fresh evaluation reports, where `has_source`.
    pub open spec fn fresh_state(self, snapshot: &Snapshot, extra: ExtraActionData) -> Option<
        ActionState<bool>,
    > {
        let hand = Some(self.hand);
        match self.ty {
            BindingType::Dpad(d) => d.output(
                snapshot.vector2_of(d.actions.xy, hand),
                d.activator_reading(snapshot, self.hand),
            ),
            BindingType::Toggle(t) => t.output(
                snapshot.bool_of(extra.toggle_action.unwrap(), hand),
            ),
            BindingType::Grab(g) => g.output(
                snapshot.float_of(extra.grab_actions.unwrap().force_action, hand),
                snapshot.float_of(extra.grab_actions.unwrap().value_action, hand),
            ),
            BindingType::ThresholdFloat(t) => t.output(
                value_measure(snapshot.float_of(extra.analog_action.unwrap(), hand)),
            ),
            BindingType::ThresholdVec2(t) => t.output(
                length_measure(snapshot.vector2_of(extra.vector2_action.unwrap(), hand)),
            ),
        }
    }

    /// The pulse that a fresh evaluation asks for.
    pub open spec fn fresh_pulse(self, snapshot: &Snapshot) -> Option<HapticRequest> {
        match self.ty {
            BindingType::Dpad(d) => if d.enters(
                snapshot.vector2_of(d.actions.xy, Some(self.hand)),
                d.activator_reading(snapshot, self.hand),
            ) && d.actions.haptic.is_some() {
                Some(entry_pulse(d.actions.haptic.unwrap(), self.hand))
            } else {
                None
            },
            _ => None,
        }
    }

    /// True when a read for `subaction_path` computes: the binding is for
    /// that hand, has no stored result, and its source exists.
    pub open spec fn computes(self, extra: ExtraActionData, subaction_path: Hand) -> bool {
        self.hand == subaction_path && self.last_state == BindingState::Unsynced
            && self.has_source(extra)
    }

    /// The binding after a read for `subaction_path`.
    pub open spec fn after_read(
        self,
        snapshot: &Snapshot,
        extra: ExtraActionData,
        subaction_path: Hand,
    ) -> BindingData {
        if self.computes(extra, subaction_path) {
            BindingData {
                ty: self.fresh_type(snapshot, extra),
                hand: self.hand,
                last_state: BindingState::Synced(self.fresh_state(snapshot, extra)),
            }
        } else {
            self
        }
    }

    /// What a read for `subaction_path` reports: nothing for the other hand
    /// or without a source, the stored result if there is one, and else the
    /// result of a fresh evaluation.
    pub open spec fn read(
        self,
        snapshot: &Snapshot,
        extra: ExtraActionData,
        subaction_path: Hand,
    ) -> Evaluation {
        if self.hand != subaction_path {
            Evaluation { state: None, pulse: None }
        } else {
            match self.last_state {
                BindingState::Synced(s) => Evaluation { state: s, pulse: None },
                BindingState::Unsynced => if self.has_source(extra) {
                    Evaluation {
                        state: self.fresh_state(snapshot, extra),
                        pulse: self.fresh_pulse(snapshot),
                    }
                } else {
                    Evaluation { state: None, pulse: None }
                },
            }
        }
    }

    /// Reads the binding for `subaction_path`. The first read after a sync
    /// evaluates and stores the result; later reads return what was stored
    /// and change nothing.
    pub fn state(
        &mut self,
        snapshot: &Snapshot,
        extra_data: &ExtraActionData,
        subaction_path: Hand,
    ) -> (r: Evaluation)
        ensures
            r == old(self).read(snapshot, *extra_data, subaction_path),
            *final(self) == old(self).after_read(snapshot, *extra_data, subaction_path),
    {
        let none = Evaluation { state: None, pulse: None };
        if !same_hand(self.hand, subaction_path) {
            return none;
        }
        match self.last_state {
            BindingState::Synced(s) => {
                return Evaluation { state: s, pulse: None };
            },
            BindingState::Unsynced => {},
        }
        let hand = self.hand;
        let result = match self.ty {
            BindingType::Dpad(d) => {
                let mut d = d;
                let e = d.state(snapshot, hand);
                self.ty = BindingType::Dpad(d);
                e
            },
            BindingType::Toggle(t) => {
                let mut t = t;
                match extra_data.toggle_action {
                    None => {
                        return none;
                    },
                    Some(a) => {
                        let s = t.state(snapshot.bool_state(a, Some(hand)));
                        self.ty = BindingType::Toggle(t);
                        Evaluation { state: s, pulse: None }
                    },
                }
            },
            BindingType::Grab(g) => {
                let mut g = g;
                match extra_data.grab_actions {
                    None => {
                        return none;
                    },
                    Some(a) => {
                        let s = g.state(
                            snapshot.float_state(a.force_action, Some(hand)),
                            snapshot.float_state(a.value_action, Some(hand)),
                        );
                        self.ty = BindingType::Grab(g);
                        Evaluation { state: s, pulse: None }
                    },
                }
            },
            BindingType::ThresholdFloat(t) => {
                let mut t = t;
                match extra_data.analog_action {
                    None => {
                        return none;
                    },
                    Some(a) => {
                        let f = snapshot.float_state(a, Some(hand));
                        let s = t.state(
                            ActionState {
                                current_state: Measure::Value(f.current_state),
                                changed_since_last_sync: f.changed_since_last_sync,
                                last_change_time: f.last_change_time,
                                is_active: f.is_active,
                            },
                        );
                        self.ty = BindingType::ThresholdFloat(t);
                        Evaluation { state: s, pulse: None }
                    },
                }
            },
            BindingType::ThresholdVec2(t) => {
                let mut t = t;
                match extra_data.vector2_action {
                    None => {
                        return none;
                    },
                    Some(a) => {
                        let f = snapshot.vector2_state(a, Some(hand));
                        let s = t.state(
                            ActionState {
                                current_state: Measure::Length(f.current_state),
                                changed_since_last_sync: f.changed_since_last_sync,
                                last_change_time: f.last_change_time,
                                is_active: f.is_active,
                            },
                        );
                        self.ty = BindingType::ThresholdVec2(t);
                        Evaluation { state: s, pulse: None }
                    },
                }
            },
        };
        self.last_state = BindingState::Synced(result.state);
        result
    }
}

/// Within one sync, a second read of a binding returns the state of the
/// first, asks for no pulse, and leaves the binding as the first read left
/// it.
pub proof fn lemma_read_is_memoized(
    b: BindingData,
    snapshot: &Snapshot,
    other: &Snapshot,
    extra: ExtraActionData,
    hand: Hand,
)
    requires
        b.hand == hand,
        b.has_source(extra),
    ensures
        b.after_read(snapshot, extra, hand).read(other, extra, hand).state == b.read(
            snapshot,
            extra,
            hand,
        ).state,
        b.after_read(snapshot, extra, hand).read(other, extra, hand).pulse.is_none(),
        b.after_read(snapshot, extra, hand).after_read(other, extra, hand) == b.after_read(
            snapshot,
            extra,
            hand,
        ),
{
}

/// Away from the center, every point lies in at least one of the four
/// directions, opposite directions never hold together, and the center
/// holds exactly when none of the four does.
pub proof fn lemma_dpad_partition(point: Vector2)
    ensures
        in_bounds(DpadDirection::Center, point) <==> !(in_bounds(DpadDirection::North, point)
            || in_bounds(DpadDirection::East, point) || in_bounds(DpadDirection::South, point)
            || in_bounds(DpadDirection::West, point)),
        !(in_bounds(DpadDirection::North, point) && in_bounds(DpadDirection::South, point)),
        !(in_bounds(DpadDirection::East, point) && in_bounds(DpadDirection::West, point)),
{
    let far = Fixed::reaches(point.x, point.y, Fixed { raw: HALF });
    let x = point.x.units();
    let y = point.y.units();
    if (y >= point.x.abs_units() && -y >= point.x.abs_units()) || (x >= point.y.abs_units() && -x
        >= point.y.abs_units()) {
        assert(x * x + y * y == 0) by (nonlinear_arith)
            requires
                x == 0,
                y == 0,
        ;
        assert((HALF as int) * (HALF as int) > 0) by (nonlinear_arith);
        assert(!far);
    }
}

/// A grab that is not held begins exactly at the hold threshold, reporting
/// a change; one that is held lasts above the release threshold, reporting
/// none, and ends at or below it, reporting a change.
pub proof fn lemma_grab_hysteresis(g: GrabBindingData, force: ActionState<Fixed>, value: ActionState<Fixed>)
    requires
        force.is_active,
        value.is_active,
    ensures
        ({
            let v = grab_pressure(force.current_state, value.current_state);
            let out = g.output(force, value).unwrap();
            &&& g.output(force, value).is_some()
            &&& out.current_state == g.next(force, value)
            &&& out.is_active
            &&& !g.last_state ==> (out.current_state <==> v >= g.hold_threshold.units())
            &&& g.last_state ==> (out.current_state <==> v > g.release_threshold.units())
            &&& out.changed_since_last_sync <==> (out.current_state != g.last_state)
        }),
{
}

/// A press of the source flips the toggle and reports a change; any other
/// report of an active source leaves the latch and reports none.
pub proof fn lemma_toggle_edge(t: ToggleData, source: ActionState<bool>)
    requires
        source.is_active,
    ensures
        ToggleData::rising(source) ==> t.next(source) == !t.last_state && t.output(
            source,
        ).unwrap().changed_since_last_sync,
        !ToggleData::rising(source) ==> t.next(source) == t.last_state && !t.output(
            source,
        ).unwrap().changed_since_last_sync,
        t.output(source).unwrap().current_state == t.next(source),
{
}

/// A threshold binding that is not pressed becomes pressed exactly at the
/// click threshold, one that is pressed is released exactly below the
/// release threshold, and a value from the release threshold up to the
/// click threshold changes nothing.
pub proof fn lemma_threshold_hysteresis(t: ThresholdBindingData, source: ActionState<Measure>)
    requires
        source.is_active,
    ensures
        !t.last_state ==> (t.next(source) <==> source.current_state.at_least(t.click_threshold)),
        t.last_state ==> (t.next(source) <==> source.current_state.at_least(t.release_threshold)),
        source.current_state.at_least(t.release_threshold) && !source.current_state.at_least(
            t.click_threshold,
        ) ==> t.next(source) == t.last_state && !t.output(source).unwrap().changed_since_last_sync,
        t.output(source).unwrap().current_state == t.next(source),
        t.output(source).unwrap().changed_since_last_sync <==> t.next(source) != t.last_state,
{
}

/// A measure that reaches a threshold reaches every smaller one.
pub proof fn lemma_measure_monotone(m: Measure, low: Fixed, high: Fixed)
    requires
        low.units() <= high.units(),
        m.at_least(high),
    ensures
        m.at_least(low),
{
    match m {
        Measure::Value(_) => {},
        Measure::Length(p) => {
            if low.raw > 0 {
                assert(low.units() * low.units() <= high.units() * high.units())
                    by (nonlinear_arith)
                    requires
                        0 < low.units() <= high.units(),
                ;
            }
        },
    }
}

/// With the same readings, evaluating a bound evaluator a second time
/// reports the state of the first evaluation and no change: for a
/// threshold binding whose release threshold is not above its click
/// threshold.
pub proof fn lemma_threshold_settles(t: ThresholdBindingData, source: ActionState<Measure>)
    requires
        source.is_active,
        t.release_threshold.units() <= t.click_threshold.units(),
    ensures
        ({
            let after = ThresholdBindingData { last_state: t.next(source), ..t };
            after.next(source) == t.next(source) && !after.output(
                source,
            ).unwrap().changed_since_last_sync
        }),
{
    if t.next(source) && !t.last_state {
        lemma_measure_monotone(source.current_state, t.release_threshold, t.click_threshold);
    }
    if !t.next(source) && t.last_state {
        if source.current_state.at_least(t.click_threshold) {
            lemma_measure_monotone(source.current_state, t.release_threshold, t.click_threshold);
        }
    }
}

/// With the same readings, evaluating a grab a second time reports the
/// state of the first evaluation and no change: for a grab whose release
/// threshold is below its hold threshold.
pub proof fn lemma_grab_settles(g: GrabBindingData, force: ActionState<Fixed>, value: ActionState<Fixed>)
    requires
        force.is_active,
        value.is_active,
        g.release_threshold.units() < g.hold_threshold.units(),
    ensures
        ({
            let after = GrabBindingData { last_state: g.next(force, value), ..g };
            after.next(force, value) == g.next(force, value) && !after.output(
                force,
                value,
            ).unwrap().changed_since_last_sync
        }),
{
}

/// With the same readings, evaluating a dpad direction a second time
/// reports what the first evaluation reported, without a change and
/// without a pulse: for an activator whose verdict is the same whether or
/// not the direction is held, that is, one whose value does not lie above
/// the release threshold and at or below the click threshold.
pub proof fn lemma_dpad_settles(
    d: DpadData,
    parent: ActionState<Vector2>,
    activator: Option<ActionState<Fixed>>,
)
    requires
        activator_open(false, activator) == activator_open(true, activator),
    ensures
        ({
            let after = d.next(parent, activator);
            &&& after.next(parent, activator).last_state == after.last_state
            &&& after.output(parent, activator).is_some() == d.output(parent, activator).is_some()
            &&& after.output(parent, activator).is_some() ==> after.output(
                parent,
                activator,
            ).unwrap().current_state == d.output(parent, activator).unwrap().current_state
                && !after.output(parent, activator).unwrap().changed_since_last_sync
            &&& !after.enters(parent, activator)
        }),
{
}

/// Once the source has stopped reporting a change, evaluating a toggle
/// again keeps the latch and reports no change.
pub proof fn lemma_toggle_settles(t: ToggleData, source: ActionState<bool>)
    requires
        source.is_active,
        !source.changed_since_last_sync,
    ensures
        t.next(source) == t.last_state,
        !t.output(source).unwrap().changed_since_last_sync,
{
}

/// True when `second` is what the runtime reports at a sync after `first`
/// while nothing has moved: every action reports the state it reported
/// before, and reports it as unchanged.
pub open spec fn settled(first: &Snapshot, second: &Snapshot) -> bool {
    &&& forall|action: u32, hand: Option<Hand>|
        #[trigger] second.bool_of(action, hand) == (ActionState {
            changed_since_last_sync: false,
            ..first.bool_of(action, hand)
        })
    &&& forall|action: u32, hand: Option<Hand>|
        #[trigger] second.float_of(action, hand) == (ActionState {
            changed_since_last_sync: false,
            ..first.float_of(action, hand)
        })
    &&& forall|action: u32, hand: Option<Hand>|
        #[trigger] second.vector2_of(action, hand) == (ActionState {
            changed_since_last_sync: false,
            ..first.vector2_of(action, hand)
        })
}

/// True when the thresholds of the binding are in order: a grab releases
/// below where it begins, a click is released at or below where it is
/// made, and the activator of a dpad does not report a value above the
/// release threshold and at or below the click threshold.
pub open spec fn steady(b: BindingData, snapshot: &Snapshot) -> bool {
    match b.ty {
        BindingType::Dpad(d) => activator_open(false, d.activator_reading(snapshot, b.hand))
            == activator_open(true, d.activator_reading(snapshot, b.hand)),
        BindingType::Toggle(_) => true,
        BindingType::Grab(g) => g.release_threshold.units() < g.hold_threshold.units(),
        BindingType::ThresholdFloat(t) => t.release_threshold.units() <= t.click_threshold.units(),
        BindingType::ThresholdVec2(t) => t.release_threshold.units() <= t.click_threshold.units(),
    }
}

/// Syncing twice while nothing moves changes nothing: a binding that is
/// read after a sync, unsynced by the next sync and read again against
/// the same readings reports the state it reported before, and reports
/// it as unchanged, without asking for a pulse.
pub proof fn lemma_sync_is_idempotent(
    b: BindingData,
    first: &Snapshot,
    second: &Snapshot,
    extra: ExtraActionData,
)
    requires
        b.last_state == BindingState::Unsynced,
        b.has_source(extra),
        settled(first, second),
        steady(b, first),
    ensures
        ({
            let read = b.after_read(first, extra, b.hand);
            let again = BindingData { last_state: BindingState::Unsynced, ..read };
            let before = b.read(first, extra, b.hand);
            let after = again.read(second, extra, b.hand);
            &&& after.state.is_some() == before.state.is_some()
            &&& after.state.is_some() ==> after.state.unwrap().current_state
                == before.state.unwrap().current_state
                && after.state.unwrap().is_active == before.state.unwrap().is_active
                && !after.state.unwrap().changed_since_last_sync
            &&& after.pulse.is_none()
        }),
{
    let hand = Some(b.hand);
    match b.ty {
        BindingType::Dpad(d) => {
            let parent = first.vector2_of(d.actions.xy, hand);
            let activator = d.activator_reading(first, b.hand);
            lemma_dpad_settles(d, parent, activator);
            assert(second.vector2_of(d.actions.xy, hand).current_state == parent.current_state);
            if d.actions.click_or_touch.is_some() {
                let a = d.actions.click_or_touch.unwrap();
                assert(second.float_of(a, hand).current_state == first.float_of(
                    a,
                    hand,
                ).current_state);
                assert(second.float_of(a, hand).is_active == first.float_of(a, hand).is_active);
            }
        },
        BindingType::Toggle(t) => {
            let a = extra.toggle_action.unwrap();
            assert(second.bool_of(a, hand).is_active == first.bool_of(a, hand).is_active);
            assert(!second.bool_of(a, hand).changed_since_last_sync);
        },
        BindingType::Grab(g) => {
            let f = extra.grab_actions.unwrap().force_action;
            let v = extra.grab_actions.unwrap().value_action;
            assert(second.float_of(f, hand).current_state == first.float_of(f, hand).current_state);
            assert(second.float_of(v, hand).current_state == first.float_of(v, hand).current_state);
            assert(second.float_of(f, hand).is_active == first.float_of(f, hand).is_active);
            assert(second.float_of(v, hand).is_active == first.float_of(v, hand).is_active);
            if first.float_of(f, hand).is_active && first.float_of(v, hand).is_active {
                lemma_grab_settles(g, first.float_of(f, hand), first.float_of(v, hand));
            }
        },
        BindingType::ThresholdFloat(t) => {
            let a = extra.analog_action.unwrap();
            assert(second.float_of(a, hand).current_state == first.float_of(a, hand).current_state);
            assert(second.float_of(a, hand).is_active == first.float_of(a, hand).is_active);
            if first.float_of(a, hand).is_active {
                lemma_threshold_settles(t, value_measure(first.float_of(a, hand)));
            }
        },
        BindingType::ThresholdVec2(t) => {
            let a = extra.vector2_action.unwrap();
            assert(second.vector2_of(a, hand).current_state == first.vector2_of(
                a,
                hand,
            ).current_state);
            assert(second.vector2_of(a, hand).is_active == first.vector2_of(a, hand).is_active);
            if first.vector2_of(a, hand).is_active {
                lemma_threshold_settles(t, length_measure(first.vector2_of(a, hand)));
            }
        },
    }
}

} // verus!
