//! How the outputs of a binding file are bound: the kind of value that an
//! input path gives, the input path that a profile offers for a binding
//! path, and the class of a binding.

use crate::action_manifest::ActionKind;
use crate::action_manifest::BoundPoseType;
use crate::action_manifest::Parameters;
use crate::action_manifest::SourceMode;
use crate::profiles::Profile;
use crate::profiles::is_legal;
use crate::profiles::legal_path;
use crate::profiles::translate;
use crate::profiles::translated;
use crate::runtime::Hand;
use crate::strings::ends_with;
use crate::strings::ends_with_seq;
use vstd::prelude::*;

verus! {


/// What kind of value an input path of a profile gives.
#[derive(Clone, Copy, Debug, PartialEq, Eq, Structural)]
pub enum InputKind {
    /// A click or a touch.
    Boolean,
    /// A value, a force or a single axis.
    Analog,
    /// A stick or a pad as a whole.
    TwoAxis,
    Pose,
    Haptic,
}

/// The kind of value that an input path gives, read from its last
/// component.
pub open spec fn kind_of_input(path: Seq<char>) -> InputKind {
    if ends_with_seq(path, "/click"@) || ends_with_seq(path, "/touch"@) {
        InputKind::Boolean
    } else if ends_with_seq(path, "/value"@) || ends_with_seq(path, "/force"@) || ends_with_seq(
        path,
        "/x"@,
    ) || ends_with_seq(path, "/y"@) {
        InputKind::Analog
    } else if ends_with_seq(path, "/pose"@) {
        InputKind::Pose
    } else if ends_with_seq(path, "/haptic"@) {
        InputKind::Haptic
    } else {
        InputKind::TwoAxis
    }
}

/// Reads the kind of value that an input path gives.
pub fn input_kind(path: &str) -> (r: InputKind)
    ensures
        r == kind_of_input(path@),
{
    if ends_with(path, "/click") || ends_with(path, "/touch") {
        InputKind::Boolean
    } else if ends_with(path, "/value") || ends_with(path, "/force") || ends_with(path, "/x")
        || ends_with(path, "/y") {
        InputKind::Analog
    } else if ends_with(path, "/pose") {
        InputKind::Pose
    } else if ends_with(path, "/haptic") {
        InputKind::Haptic
    } else {
        InputKind::TwoAxis
    }
}

/// The input of a source that an output hangs on.
#[derive(Clone, Copy, Debug, PartialEq, Eq, Structural)]
pub enum SourceInput {
    Click,
    Touch,
    Pull,
    Force,
    Position,
    Grab,
    /// One of the directions of a dpad, or its center.
    Direction,
}

/// How an output of a source is bound.
#[derive(Clone, Copy, Debug, PartialEq, Eq, Structural)]
pub enum BindingClass {
    /// The input is suggested for the action itself.
    Plain,
    /// A click is made from the analog input that the binding names.
    Threshold,
    /// A click is made from the pull of the input, so that the thresholds
    /// of the binding can be applied.
    ClickFromPull,
    /// A touch is made from the pull of an input that reports no touch.
    TouchFromPull,
    Dpad,
    Grab,
    Toggle,
    /// The binding is dropped.
    Rejected,
}

/// True when the mode reads plain inputs: a button, a trigger, a pad or a
/// stick.
pub open spec fn reads_inputs(mode: SourceMode) -> bool {
    mode == SourceMode::Button || mode == SourceMode::Trigger || mode == SourceMode::Trackpad
        || mode == SourceMode::Joystick
}

/// How an output is bound: by the mode of its source, the input it hangs
/// on, the kind of the action it drives, the kind of the input path that
/// the profile offers for it (`None` if it offers none), the kind of the
/// path that stands in for it (the pull behind a click or a touch, the
/// value behind a grab), and whether the source gives click thresholds.
///
/// A boolean action takes a click or a touch as it is. With click
/// thresholds a click is made from the pull of the input if the profile
/// offers it, and else from the click path if that is analog; without
/// thresholds an analog click path is suggested as it is, and the runtime
/// makes the click. A touch that the profile does not offer is made from
/// the pull. A boolean action takes the directions of a dpad over a
/// two-axis input, a grab over a force or a value, and the click of a
/// toggle. A float action takes a click, a touch, a pull or a force as it
/// is. A two-axis action takes the position of a pad or stick. Any other
/// pairing is rejected.
pub open spec fn class_of(
    mode: SourceMode,
    input: SourceInput,
    action: ActionKind,
    target: Option<InputKind>,
    stand_in: Option<InputKind>,
    thresholds: bool,
) -> BindingClass {
    let scalar = target == Some(InputKind::Boolean) || target == Some(InputKind::Analog);
    match input {
        SourceInput::Direction => if mode == SourceMode::Dpad && action == ActionKind::Bool
            && target == Some(InputKind::TwoAxis) {
            BindingClass::Dpad
        } else {
            BindingClass::Rejected
        },
        SourceInput::Grab => if mode == SourceMode::Grab && action == ActionKind::Bool && (target
            == Some(InputKind::Analog) || stand_in == Some(InputKind::Analog)) {
            BindingClass::Grab
        } else {
            BindingClass::Rejected
        },
        SourceInput::Click => if mode == SourceMode::ToggleButton {
            if action == ActionKind::Bool && scalar {
                BindingClass::Toggle
            } else {
                BindingClass::Rejected
            }
        } else if !reads_inputs(mode) {
            BindingClass::Rejected
        } else if action == ActionKind::Bool && thresholds && stand_in == Some(InputKind::Analog) {
            BindingClass::ClickFromPull
        } else if action == ActionKind::Bool && target == Some(InputKind::Boolean) {
            BindingClass::Plain
        } else if action == ActionKind::Bool && target == Some(InputKind::Analog) {
            if thresholds {
                BindingClass::Threshold
            } else {
                BindingClass::Plain
            }
        } else if action == ActionKind::Vector1 && scalar {
            BindingClass::Plain
        } else {
            BindingClass::Rejected
        },
        SourceInput::Touch => if !reads_inputs(mode) {
            BindingClass::Rejected
        } else if (action == ActionKind::Bool || action == ActionKind::Vector1) && target == Some(
            InputKind::Boolean,
        ) {
            BindingClass::Plain
        } else if action == ActionKind::Bool && target.is_none() && stand_in == Some(
            InputKind::Analog,
        ) {
            BindingClass::TouchFromPull
        } else {
            BindingClass::Rejected
        },
        SourceInput::Pull => if !reads_inputs(mode) {
            BindingClass::Rejected
        } else if action == ActionKind::Vector1 && target == Some(InputKind::Analog) {
            BindingClass::Plain
        } else if action == ActionKind::Bool && target == Some(InputKind::Analog) {
            if thresholds {
                BindingClass::Threshold
            } else {
                BindingClass::Plain
            }
        } else {
            BindingClass::Rejected
        },
        SourceInput::Force => if reads_inputs(mode) && action == ActionKind::Vector1 && target
            == Some(InputKind::Analog) {
            BindingClass::Plain
        } else {
            BindingClass::Rejected
        },
        SourceInput::Position => if (mode == SourceMode::Trackpad || mode == SourceMode::Joystick)
            && action == ActionKind::Vector2 && target == Some(InputKind::TwoAxis) {
            BindingClass::Plain
        } else {
            BindingClass::Rejected
        },
    }
}

fn is_kind(found: Option<InputKind>, wanted: InputKind) -> (r: bool)
    ensures
        r == (found == Some(wanted)),
{
    match (found, wanted) {
        (Some(InputKind::Boolean), InputKind::Boolean) => true,
        (Some(InputKind::Analog), InputKind::Analog) => true,
        (Some(InputKind::TwoAxis), InputKind::TwoAxis) => true,
        (Some(InputKind::Pose), InputKind::Pose) => true,
        (Some(InputKind::Haptic), InputKind::Haptic) => true,
        _ => false,
    }
}

fn is_action(found: ActionKind, wanted: ActionKind) -> (r: bool)
    ensures
        r == (found == wanted),
{
    match (found, wanted) {
        (ActionKind::Bool, ActionKind::Bool) => true,
        (ActionKind::Vector1, ActionKind::Vector1) => true,
        (ActionKind::Vector2, ActionKind::Vector2) => true,
        (ActionKind::Pose, ActionKind::Pose) => true,
        (ActionKind::Skeleton, ActionKind::Skeleton) => true,
        (ActionKind::Haptic, ActionKind::Haptic) => true,
        _ => false,
    }
}

fn plain_mode(mode: SourceMode) -> (r: bool)
    ensures
        r == reads_inputs(mode),
{
    match mode {
        SourceMode::Button | SourceMode::Trigger | SourceMode::Trackpad | SourceMode::Joystick => true,
        _ => false,
    }
}

/// Decides how an output of a source is bound.
pub fn classify(
    mode: SourceMode,
    input: SourceInput,
    action: ActionKind,
    target: Option<InputKind>,
    stand_in: Option<InputKind>,
    thresholds: bool,
) -> (r: BindingClass)
    ensures
        r == class_of(mode, input, action, target, stand_in, thresholds),
{
    let scalar = is_kind(target, InputKind::Boolean) || is_kind(target, InputKind::Analog);
    let boolean = is_action(action, ActionKind::Bool);
    let float = is_action(action, ActionKind::Vector1);
    match input {
        SourceInput::Direction => {
            let dpad = match mode {
                SourceMode::Dpad => true,
                _ => false,
            };
            if dpad && boolean && is_kind(target, InputKind::TwoAxis) {
                BindingClass::Dpad
            } else {
                BindingClass::Rejected
            }
        },
        SourceInput::Grab => {
            let grab = match mode {
                SourceMode::Grab => true,
                _ => false,
            };
            if grab && boolean && (is_kind(target, InputKind::Analog) || is_kind(
                stand_in,
                InputKind::Analog,
            )) {
                BindingClass::Grab
            } else {
                BindingClass::Rejected
            }
        },
        SourceInput::Click => {
            let toggle = match mode {
                SourceMode::ToggleButton => true,
                _ => false,
            };
            if toggle {
                if boolean && scalar {
                    BindingClass::Toggle
                } else {
                    BindingClass::Rejected
                }
            } else if !plain_mode(mode) {
                BindingClass::Rejected
            } else if boolean && thresholds && is_kind(stand_in, InputKind::Analog) {
                BindingClass::ClickFromPull
            } else if boolean && is_kind(target, InputKind::Boolean) {
                BindingClass::Plain
            } else if boolean && is_kind(target, InputKind::Analog) {
                if thresholds {
                    BindingClass::Threshold
                } else {
                    BindingClass::Plain
                }
            } else if float && scalar {
                BindingClass::Plain
            } else {
                BindingClass::Rejected
            }
        },
        SourceInput::Touch => {
            if !plain_mode(mode) {
                BindingClass::Rejected
            } else if (boolean || float) && is_kind(target, InputKind::Boolean) {
                BindingClass::Plain
            } else if boolean && target.is_none() && is_kind(stand_in, InputKind::Analog) {
                BindingClass::TouchFromPull
            } else {
                BindingClass::Rejected
            }
        },
        SourceInput::Pull => {
            if !plain_mode(mode) {
                BindingClass::Rejected
            } else if float && is_kind(target, InputKind::Analog) {
                BindingClass::Plain
            } else if boolean && is_kind(target, InputKind::Analog) {
                if thresholds {
                    BindingClass::Threshold
                } else {
                    BindingClass::Plain
                }
            } else {
                BindingClass::Rejected
            }
        },
        SourceInput::Force => {
            if plain_mode(mode) && float && is_kind(target, InputKind::Analog) {
                BindingClass::Plain
            } else {
                BindingClass::Rejected
            }
        },
        SourceInput::Position => {
            let pad = match mode {
                SourceMode::Trackpad | SourceMode::Joystick => true,
                _ => false,
            };
            if pad && is_action(action, ActionKind::Vector2)
                && is_kind(target, InputKind::TwoAxis) {
                BindingClass::Plain
            } else {
                BindingClass::Rejected
            }
        },
    }
}

/// The input path that a profile offers for a binding path: the binding
/// path as the profile rewrites it, if that is one of its paths.
pub open spec fn resolved(profile: Profile, raw: Seq<char>) -> Option<Seq<char>> {
    let path = translated(raw, profile.translations(), 0);
    if is_legal(path, profile.legal()) {
        Some(path)
    } else {
        None
    }
}

/// Finds the input path that a profile offers for a binding path.
pub fn resolve(profile: Profile, raw: &str) -> (r: Option<String>)
    ensures
        r.is_some() == resolved(profile, raw@).is_some(),
        r.is_some() ==> r.unwrap()@ == resolved(profile, raw@).unwrap(),
        r.is_some() ==> is_legal(r.unwrap()@, profile.legal()),
{
    let rules = profile.translate_map();
    let legal = profile.legal_paths();
    let path = translate(raw, &rules);
    if legal_path(path.as_str(), &legal) {
        Some(path)
    } else {
        None
    }
}

/// The raw value from which a touch made from a pull counts as touched:
/// any pull at all.
pub const TOUCH_FROM_PULL_THRESHOLD: i64 = 1;

/// The hand that a skeleton path names: the one its last component names.
pub open spec fn skeleton_hand_of(path: Seq<char>) -> Option<Hand> {
    if ends_with_seq(path, "/left"@) {
        Some(Hand::Left)
    } else if ends_with_seq(path, "/right"@) {
        Some(Hand::Right)
    } else {
        None
    }
}

/// Reads the hand that a skeleton path names.
pub fn skeleton_hand(path: &str) -> (r: Option<Hand>)
    ensures
        r == skeleton_hand_of(path@),
{
    if ends_with(path, "/left") {
        Some(Hand::Left)
    } else if ends_with(path, "/right") {
        Some(Hand::Right)
    } else {
        None
    }
}

/// The type of pose that a pose path names.
pub open spec fn pose_type_of(path: Seq<char>) -> Option<BoundPoseType> {
    if ends_with_seq(path, "/pose/raw"@) {
        Some(BoundPoseType::Raw)
    } else if ends_with_seq(path, "/pose/gdc2015"@) {
        Some(BoundPoseType::Gdc2015)
    } else {
        None
    }
}

/// Reads the type of pose that a pose path names.
pub fn pose_type(path: &str) -> (r: Option<BoundPoseType>)
    ensures
        r == pose_type_of(path@),
{
    if ends_with(path, "/pose/raw") {
        Some(BoundPoseType::Raw)
    } else if ends_with(path, "/pose/gdc2015") {
        Some(BoundPoseType::Gdc2015)
    } else {
        None
    }
}

/// The binding path behind an input of a source: the path of the source
/// with the name of the input, or the path itself for a position. The
/// force stands behind a grab.
pub open spec fn target_raw(path: Seq<char>, input: SourceInput) -> Option<Seq<char>> {
    match input {
        SourceInput::Click => Some(path + "/click"@),
        SourceInput::Touch => Some(path + "/touch"@),
        SourceInput::Pull => Some(path + "/pull"@),
        SourceInput::Force => Some(path + "/force"@),
        SourceInput::Position => Some(path),
        SourceInput::Grab => Some(path + "/force"@),
        SourceInput::Direction => None,
    }
}

/// The binding path that stands in for an input of a source: the pull
/// for a click or a touch, the value for a grab.
pub open spec fn stand_in_raw(path: Seq<char>, input: SourceInput) -> Option<Seq<char>> {
    match input {
        SourceInput::Click => Some(path + "/pull"@),
        SourceInput::Touch => Some(path + "/pull"@),
        SourceInput::Grab => Some(path + "/value"@),
        _ => None,
    }
}

/// The input path that a profile offers for a binding path, if there is
/// a binding path.
pub open spec fn resolved_path(profile: Profile, raw: Option<Seq<char>>) -> Option<Seq<char>> {
    match raw {
        Some(r) => resolved(profile, r),
        None => None,
    }
}

/// The kind of the input path that a profile offers for a binding path.
pub open spec fn resolved_kind(profile: Profile, raw: Option<Seq<char>>) -> Option<InputKind> {
    match resolved_path(profile, raw) {
        Some(p) => Some(kind_of_input(p)),
        None => None,
    }
}

/// True when a source gives a click threshold.
pub open spec fn gives_thresholds(parameters: Parameters) -> bool {
    parameters.click_activate_threshold.is_some() || parameters.click_deactivate_threshold.is_some()
}

/// True when an input path gives a boolean or an analog value.
pub open spec fn wide_input(path: Seq<char>) -> bool {
    kind_of_input(path) == InputKind::Boolean || kind_of_input(path) == InputKind::Analog
}

} // verus!
