//! What the runtime reports and what it is asked to do, as plain values.
//!
//! The library never talks to the runtime itself. After each action sync the
//! caller records what every runtime action reports in a [`Snapshot`]; all
//! reads until the next sync are functions of that snapshot. Requests in the
//! other direction (a haptic pulse, a set of action sets to sync) are handed
//! back as values for the caller to carry out.

use crate::fixed::Fixed;
use vstd::prelude::*;

verus! {

/// One of the two hands.
#[derive(Clone, Copy, Debug, PartialEq, Eq, Structural)]
pub enum Hand {
    Left,
    Right,
}

/// The state of one runtime action for one subaction path.
#[derive(Clone, Copy, Debug, PartialEq, Eq)]
pub struct ActionState<T> {
    pub current_state: T,
    pub changed_since_last_sync: bool,
    pub last_change_time: i64,
    pub is_active: bool,
}

/// A two-axis reading.
#[derive(Clone, Copy, Debug, PartialEq, Eq, Structural)]
pub struct Vector2 {
    pub x: Fixed,
    pub y: Fixed,
}

/// What one runtime action reports, by the type it was created with.
#[derive(Clone, Copy, Debug, PartialEq, Eq)]
pub enum ActionValue {
    Bool(ActionState<bool>),
    Float(ActionState<Fixed>),
    Vector2(ActionState<Vector2>),
    /// A pose action, of which only the activity is read.
    Pose(bool),
}

/// One entry of a snapshot: a runtime action, a subaction path (`None` is
/// the null path, which reads across both hands) and what it reports.
#[derive(Clone, Copy, Debug, PartialEq, Eq)]
pub struct Reading {
    pub action: u32,
    pub hand: Option<Hand>,
    pub value: ActionValue,
}

/// A request to vibrate.
#[derive(Clone, Copy, Debug, PartialEq, Eq)]
pub struct HapticRequest {
    /// The runtime action to apply the feedback to.
    pub action: u32,
    /// The hand to vibrate; `None` leaves the choice to the runtime.
    pub hand: Option<Hand>,
    /// Nanoseconds; `None` asks for the shortest pulse the device supports.
    pub duration_nanos: Option<i64>,
    /// The amplitude, where 1 is full strength.
    pub amplitude: Fixed,
    /// The frequency in Hz; `None` leaves it to the runtime.
    pub frequency: Option<Fixed>,
}

/// What the runtime reported at the last action sync.
pub struct Snapshot {
    pub readings: Vec<Reading>,
}

/// The state that the runtime reports for an action with nothing bound.
pub open spec fn inactive<T>(zero: T) -> ActionState<T> {
    ActionState {
        current_state: zero,
        changed_since_last_sync: false,
        last_change_time: 0,
        is_active: false,
    }
}

/// The first entry of `readings` for `action` and `hand`, from `from` on.
pub open spec fn first_reading(readings: Seq<Reading>, action: u32, hand: Option<Hand>, from: int)
    -> Option<ActionValue>
    decreases readings.len() - from,
{
    if from < 0 || from >= readings.len() {
        None
    } else if readings[from].action == action && readings[from].hand == hand {
        Some(readings[from].value)
    } else {
        first_reading(readings, action, hand, from + 1)
    }
}

impl Snapshot {
    /// What the snapshot holds for `action` and `hand`.
    pub open spec fn lookup(&self, action: u32, hand: Option<Hand>) -> Option<ActionValue> {
        first_reading(self.readings@, action, hand, 0)
    }

    /// The boolean state of `action`: inactive and false unless the snapshot
    /// holds a boolean reading for it.
    pub open spec fn bool_of(&self, action: u32, hand: Option<Hand>) -> ActionState<bool> {
        match self.lookup(action, hand) {
            Some(ActionValue::Bool(s)) => s,
            _ => inactive(false),
        }
    }

    /// The float state of `action`: inactive and zero unless the snapshot
    /// holds a float reading for it.
    pub open spec fn float_of(&self, action: u32, hand: Option<Hand>) -> ActionState<Fixed> {
        match self.lookup(action, hand) {
            Some(ActionValue::Float(s)) => s,
            _ => inactive(Fixed { raw: 0 }),
        }
    }

    /// The two-axis state of `action`: inactive and zero unless the snapshot
    /// holds a two-axis reading for it.
    pub open spec fn vector2_of(&self, action: u32, hand: Option<Hand>) -> ActionState<Vector2> {
        match self.lookup(action, hand) {
            Some(ActionValue::Vector2(s)) => s,
            _ => inactive(Vector2 { x: Fixed { raw: 0 }, y: Fixed { raw: 0 } }),
        }
    }

    /// Whether the pose action `action` is active: false unless the
    /// snapshot holds a pose reading for it.
    pub open spec fn pose_active_of(&self, action: u32, hand: Option<Hand>) -> bool {
        match self.lookup(action, hand) {
            Some(ActionValue::Pose(active)) => active,
            _ => false,
        }
    }

    /// A snapshot in which nothing is bound.
    pub fn new() -> (r: Snapshot)
        ensures
            r.readings@.len() == 0,
    {
        Snapshot { readings: Vec::new() }
    }

    /// Records what `action` reports for `hand`. An earlier entry for the
    /// same action and hand stays in front and keeps being the one read.
    pub fn record(&mut self, action: u32, hand: Option<Hand>, value: ActionValue)
        ensures
            final(self).readings@ == old(self).readings@.push(
                Reading { action, hand, value },
            ),
    {
        self.readings.push(Reading { action, hand, value });
    }

    fn find(&self, action: u32, hand: Option<Hand>) -> (r: Option<ActionValue>)
        ensures
            r == self.lookup(action, hand),
    {
        let mut i: usize = 0;
        while i < self.readings.len()
            invariant
                i <= self.readings.len(),
                first_reading(self.readings@, action, hand, 0) == first_reading(
                    self.readings@,
                    action,
                    hand,
                    i as int,
                ),
            decreases self.readings.len() - i,
        {
            let entry = &self.readings[i];
            if entry.action == action && same_path(entry.hand, hand) {
                return Some(entry.value);
            }
            i += 1;
        }
        None
    }

    /// Reads the boolean state of `action` for `hand`.
    pub fn bool_state(&self, action: u32, hand: Option<Hand>) -> (r: ActionState<bool>)
        ensures
            r == self.bool_of(action, hand),
    {
        match self.find(action, hand) {
            Some(ActionValue::Bool(s)) => s,
            _ => ActionState {
                current_state: false,
                changed_since_last_sync: false,
                last_change_time: 0,
                is_active: false,
            },
        }
    }

    /// Reads the float state of `action` for `hand`.
    pub fn float_state(&self, action: u32, hand: Option<Hand>) -> (r: ActionState<Fixed>)
        ensures
            r == self.float_of(action, hand),
    {
        match self.find(action, hand) {
            Some(ActionValue::Float(s)) => s,
            _ => ActionState {
                current_state: Fixed { raw: 0 },
                changed_since_last_sync: false,
                last_change_time: 0,
                is_active: false,
            },
        }
    }

    /// Reads whether the pose action `action` is active for `hand`.
    pub fn pose_active(&self, action: u32, hand: Option<Hand>) -> (r: bool)
        ensures
            r == self.pose_active_of(action, hand),
    {
        match self.find(action, hand) {
            Some(ActionValue::Pose(active)) => active,
            _ => false,
        }
    }

    /// Reads the two-axis state of `action` for `hand`.
    pub fn vector2_state(&self, action: u32, hand: Option<Hand>) -> (r: ActionState<Vector2>)
        ensures
            r == self.vector2_of(action, hand),
    {
        match self.find(action, hand) {
            Some(ActionValue::Vector2(s)) => s,
            _ => ActionState {
                current_state: Vector2 { x: Fixed { raw: 0 }, y: Fixed { raw: 0 } },
                changed_since_last_sync: false,
                last_change_time: 0,
                is_active: false,
            },
        }
    }
}

/// Decides whether two subaction paths are the same.
pub fn same_path(a: Option<Hand>, b: Option<Hand>) -> (r: bool)
    ensures
        r == (a == b),
{
    match (a, b) {
        (None, None) => true,
        (Some(Hand::Left), Some(Hand::Left)) => true,
        (Some(Hand::Right), Some(Hand::Right)) => true,
        _ => false,
    }
}

/// Decides whether two hands are the same.
pub fn same_hand(a: Hand, b: Hand) -> (r: bool)
    ensures
        r == (a == b),
{
    match (a, b) {
        (Hand::Left, Hand::Left) => true,
        (Hand::Right, Hand::Right) => true,
        _ => false,
    }
}

/// The type a runtime action is created with.
#[derive(Clone, Copy, Debug, PartialEq, Eq, Structural)]
pub enum RuntimeKind {
    Bool,
    Float,
    Vector2,
    Pose,
    Haptic,
}

impl RuntimeKind {
    /// Decides whether two kinds are the same.
    pub fn same(self, other: RuntimeKind) -> (r: bool)
        ensures
            r == (self == other),
    {
        match (self, other) {
            (RuntimeKind::Bool, RuntimeKind::Bool) => true,
            (RuntimeKind::Float, RuntimeKind::Float) => true,
            (RuntimeKind::Vector2, RuntimeKind::Vector2) => true,
            (RuntimeKind::Pose, RuntimeKind::Pose) => true,
            (RuntimeKind::Haptic, RuntimeKind::Haptic) => true,
            _ => false,
        }
    }
}

/// An action set for the caller to create in the runtime.
pub struct RuntimeSet {
    pub name: String,
    pub localized_name: String,
    pub priority: u32,
}

/// An action for the caller to create in the runtime, in the set with the
/// given index, for both hands. Its position in the list it is handed out
/// in, counted from the first identifier of that list, is the identifier
/// under which readings and requests refer to it.
pub struct RuntimeAction {
    pub name: String,
    pub localized_name: String,
    pub kind: RuntimeKind,
    pub set: u32,
}

/// A binding to suggest to the runtime: an action and an input path.
pub struct Suggestion {
    pub action: u32,
    pub path: String,
}

/// The model of a suggestion.
pub struct SuggestionView {
    pub action: u32,
    pub path: Seq<char>,
}

impl View for Suggestion {
    type V = SuggestionView;

    open spec fn view(&self) -> SuggestionView {
        SuggestionView { action: self.action, path: self.path@ }
    }
}

/// The model of a runtime action.
pub struct RuntimeActionView {
    pub name: Seq<char>,
    pub localized_name: Seq<char>,
    pub kind: RuntimeKind,
    pub set: u32,
}

impl View for RuntimeAction {
    type V = RuntimeActionView;

    open spec fn view(&self) -> RuntimeActionView {
        RuntimeActionView {
            name: self.name@,
            localized_name: self.localized_name@,
            kind: self.kind,
            set: self.set,
        }
    }
}

} // verus!
