//! The action manifest: the declaration of action sets and actions, and the
//! binding files that say, for each kind of controller, which input drives
//! which action; and what loading a manifest leaves behind.

pub mod bindings;
pub mod classify;
pub mod helpers;
pub mod loader;
pub mod names;
pub mod plain;
pub mod poses;
pub mod steps;

use crate::custom_bindings::BindingData;
use crate::custom_bindings::ExtraActionData;
use crate::fixed::Fixed;
use crate::handles::canonical;
use crate::handles::position_entries;
use crate::handles::positions_get;
use crate::handles::Positions;
use crate::legacy::LEGACY_FIRST_ACTION;
use crate::profiles::is_legal;
use crate::profiles::Profile;
use crate::profiles::Profiles;
use crate::runtime::Hand;
use crate::runtime::RuntimeAction;
use crate::runtime::RuntimeKind;
use crate::runtime::RuntimeSet;
use crate::runtime::Suggestion;
use crate::strings::lowercase_of;
use crate::strings::str_eq;
use crate::strings::to_lowercase;
use vstd::prelude::*;

verus! {

/// The type that a manifest declares an action with.
#[derive(Clone, Copy, Debug, PartialEq, Eq, Structural)]
pub enum ActionType {
    Boolean,
    Vector1,
    Vector2,
    Pose,
    Skeleton,
    Vibration,
}

impl ActionType {
    /// The type that a name stands for in a manifest, if it stands for
    /// one.
    pub open spec fn named(name: Seq<char>) -> Option<ActionType> {
        if name == "boolean"@ {
            Some(ActionType::Boolean)
        } else if name == "vector1"@ {
            Some(ActionType::Vector1)
        } else if name == "vector2"@ {
            Some(ActionType::Vector2)
        } else if name == "pose"@ {
            Some(ActionType::Pose)
        } else if name == "skeleton"@ {
            Some(ActionType::Skeleton)
        } else if name == "vibration"@ {
            Some(ActionType::Vibration)
        } else {
            None
        }
    }

    /// Reads the type of an action from its name in a manifest, which is
    /// taken in lowercase. An action with a type that is not known is
    /// left out of what is loaded.
    pub fn from_name(name: &str) -> (r: Option<ActionType>)
        ensures
            r == Self::named(lowercase_of(name@)),
    {
        let lowered = to_lowercase(name);
        let n = lowered.as_str();
        if str_eq(n, "boolean") {
            Some(ActionType::Boolean)
        } else if str_eq(n, "vector1") {
            Some(ActionType::Vector1)
        } else if str_eq(n, "vector2") {
            Some(ActionType::Vector2)
        } else if str_eq(n, "pose") {
            Some(ActionType::Pose)
        } else if str_eq(n, "skeleton") {
            Some(ActionType::Skeleton)
        } else if str_eq(n, "vibration") {
            Some(ActionType::Vibration)
        } else {
            None
        }
    }
}

/// An action as a manifest declares it. A skeleton action names its hand
/// by a path that ends in `left` or `right`.
pub struct ActionEntry {
    pub name: String,
    pub ty: ActionType,
    pub skeleton: Option<String>,
}

/// An action set as a manifest declares it.
pub struct ActionSetEntry {
    pub name: String,
}

/// The name that a manifest shows for an action or an action set.
pub struct Localization {
    pub path: String,
    pub name: String,
}

/// How a source of a binding file drives its outputs.
#[derive(Clone, Copy, Debug, PartialEq, Eq, Structural)]
pub enum SourceMode {
    Button,
    Trigger,
    Trackpad,
    Joystick,
    Dpad,
    Grab,
    ToggleButton,
    /// A mode that is not supported; its source is skipped.
    Other,
}

/// What activates a dpad.
#[derive(Clone, Copy, Debug, PartialEq, Eq, Structural)]
pub enum DpadSubMode {
    Click,
    Touch,
}

impl SourceMode {
    /// The mode that a name stands for in a binding file.
    pub open spec fn named(name: Seq<char>) -> SourceMode {
        if name == "button"@ {
            SourceMode::Button
        } else if name == "trigger"@ {
            SourceMode::Trigger
        } else if name == "trackpad"@ {
            SourceMode::Trackpad
        } else if name == "joystick"@ {
            SourceMode::Joystick
        } else if name == "dpad"@ {
            SourceMode::Dpad
        } else if name == "grab"@ {
            SourceMode::Grab
        } else if name == "toggle_button"@ {
            SourceMode::ToggleButton
        } else {
            SourceMode::Other
        }
    }

    /// Reads the mode of a source from its name in a binding file, which
    /// is taken in lowercase.
    pub fn from_name(name: &str) -> (r: SourceMode)
        ensures
            r == Self::named(lowercase_of(name@)),
    {
        let lowered = to_lowercase(name);
        let n = lowered.as_str();
        if str_eq(n, "button") {
            SourceMode::Button
        } else if str_eq(n, "trigger") {
            SourceMode::Trigger
        } else if str_eq(n, "trackpad") {
            SourceMode::Trackpad
        } else if str_eq(n, "joystick") {
            SourceMode::Joystick
        } else if str_eq(n, "dpad") {
            SourceMode::Dpad
        } else if str_eq(n, "grab") {
            SourceMode::Grab
        } else if str_eq(n, "toggle_button") {
            SourceMode::ToggleButton
        } else {
            SourceMode::Other
        }
    }
}

impl DpadSubMode {
    /// What activates a dpad by the name in a binding file: a click or a
    /// touch, or nothing where the name is neither.
    pub open spec fn named(name: Seq<char>) -> Option<DpadSubMode> {
        if name == "click"@ {
            Some(DpadSubMode::Click)
        } else if name == "touch"@ {
            Some(DpadSubMode::Touch)
        } else {
            None
        }
    }

    /// Reads what activates a dpad from its name in a binding file.
    pub fn from_name(name: &str) -> (r: Option<DpadSubMode>)
        ensures
            r == Self::named(name@),
    {
        if str_eq(name, "click") {
            Some(DpadSubMode::Click)
        } else if str_eq(name, "touch") {
            Some(DpadSubMode::Touch)
        } else {
            None
        }
    }
}

/// The outputs of a source: for each input of the source, the path of the
/// action that it drives.
pub struct SourceInputs {
    pub click: Option<String>,
    pub touch: Option<String>,
    pub pull: Option<String>,
    pub force: Option<String>,
    pub position: Option<String>,
    pub grab: Option<String>,
    pub north: Option<String>,
    pub east: Option<String>,
    pub south: Option<String>,
    pub west: Option<String>,
    pub center: Option<String>,
}

/// The parameters of a source.
#[derive(Clone, Copy, Debug, PartialEq, Eq)]
pub struct Parameters {
    pub sub_mode: Option<DpadSubMode>,
    pub click_activate_threshold: Option<Fixed>,
    pub click_deactivate_threshold: Option<Fixed>,
    pub value_hold_threshold: Option<Fixed>,
    pub value_release_threshold: Option<Fixed>,
}

/// One source of a binding file: an input of the controller, such as
/// `/user/hand/left/input/trigger`, and what it drives.
pub struct SourceBinding {
    pub path: String,
    pub mode: SourceMode,
    pub inputs: SourceInputs,
    pub parameters: Parameters,
}

/// A pose or haptic binding: an action and the path it is bound to.
pub struct SimpleBinding {
    pub output: String,
    pub path: String,
}

/// The bindings of one action set in a binding file.
pub struct ActionSetBinding {
    pub set: String,
    pub sources: Vec<SourceBinding>,
    pub poses: Vec<SimpleBinding>,
    pub haptics: Vec<SimpleBinding>,
}

/// A default binding of a manifest: the controller type it is written
/// for, and the bindings of the file it names. `None` stands for a file
/// that is missing or cannot be read; it is skipped.
pub struct DefaultBinding {
    pub controller_type: String,
    pub binding_url: String,
    pub bindings: Option<Vec<ActionSetBinding>>,
}

/// An action manifest.
pub struct ActionManifest {
    pub action_sets: Vec<ActionSetEntry>,
    pub actions: Vec<ActionEntry>,
    pub default_bindings: Vec<DefaultBinding>,
    pub localization: Vec<Localization>,
}

/// What an action is, once loaded. The kind never changes.
#[derive(Clone, Copy, Debug, PartialEq, Eq, Structural)]
pub enum ActionKind {
    Bool,
    Vector1,
    Vector2,
    Pose,
    Skeleton,
    Haptic,
}

impl ActionKind {
    /// The type of the runtime action that stands behind an action of this
    /// kind. Pose and skeleton actions have none.
    pub open spec fn runtime_kind(self) -> Option<RuntimeKind> {
        match self {
            ActionKind::Bool => Some(RuntimeKind::Bool),
            ActionKind::Vector1 => Some(RuntimeKind::Float),
            ActionKind::Vector2 => Some(RuntimeKind::Vector2),
            ActionKind::Haptic => Some(RuntimeKind::Haptic),
            ActionKind::Pose => None,
            ActionKind::Skeleton => None,
        }
    }

    /// The kind that a manifest type stands for.
    pub open spec fn of(ty: ActionType) -> ActionKind {
        match ty {
            ActionType::Boolean => ActionKind::Bool,
            ActionType::Vector1 => ActionKind::Vector1,
            ActionType::Vector2 => ActionKind::Vector2,
            ActionType::Pose => ActionKind::Pose,
            ActionType::Skeleton => ActionKind::Skeleton,
            ActionType::Vibration => ActionKind::Haptic,
        }
    }

    /// Reads the kind that a manifest type stands for.
    pub fn from_type(ty: ActionType) -> (r: ActionKind)
        ensures
            r == Self::of(ty),
    {
        match ty {
            ActionType::Boolean => ActionKind::Bool,
            ActionType::Vector1 => ActionKind::Vector1,
            ActionType::Vector2 => ActionKind::Vector2,
            ActionType::Pose => ActionKind::Pose,
            ActionType::Skeleton => ActionKind::Skeleton,
            ActionType::Vibration => ActionKind::Haptic,
        }
    }

    /// Reads the type of the runtime action behind an action of this kind.
    pub fn get_runtime_kind(self) -> (r: Option<RuntimeKind>)
        ensures
            r == self.runtime_kind(),
    {
        match self {
            ActionKind::Bool => Some(RuntimeKind::Bool),
            ActionKind::Vector1 => Some(RuntimeKind::Float),
            ActionKind::Vector2 => Some(RuntimeKind::Vector2),
            ActionKind::Haptic => Some(RuntimeKind::Haptic),
            ActionKind::Pose => None,
            ActionKind::Skeleton => None,
        }
    }
}

/// The pose that a pose action reports for a hand.
#[derive(Clone, Copy, Debug, PartialEq, Eq, Structural)]
pub enum BoundPoseType {
    /// The pose of the device as the compositor reports it: the
    /// orientation of the grip at the position of the aim.
    Raw,
    /// An older convention, reported like the raw pose.
    Gdc2015,
}

/// The poses bound to a pose action for one profile.
#[derive(Clone, Copy, Debug, PartialEq, Eq)]
pub struct BoundPose {
    pub left: Option<BoundPoseType>,
    pub right: Option<BoundPoseType>,
}

/// The custom bindings of an action for one profile.
pub struct ProfileBindings {
    pub profile: Profile,
    pub bindings: Vec<BindingData>,
}

/// The pose bindings of an action for one profile.
#[derive(Clone, Copy, Debug, PartialEq, Eq)]
pub struct ProfilePose {
    pub profile: Profile,
    pub pose: BoundPose,
}

/// A loaded action.
pub struct LoadedAction {
    pub handle: u64,
    pub path: String,
    pub kind: ActionKind,
    /// The hand of a skeleton action.
    pub hand: Option<Hand>,
    /// The runtime action behind the action.
    pub action: Option<u32>,
    pub extra: ExtraActionData,
    pub bindings: Vec<ProfileBindings>,
    pub poses: Vec<ProfilePose>,
    /// The value that the last analog read reported.
    pub last_value: (Fixed, Fixed),
}

/// A loaded action set.
pub struct LoadedSet {
    pub handle: u64,
    pub name: String,
    pub runtime_set: u32,
}

/// The bindings to suggest to the runtime for one profile.
pub struct ProfileSuggestions {
    pub profile: Profile,
    pub bindings: Vec<Suggestion>,
}

/// A runtime action that is shared and found again by a key: the parent
/// of a dpad, its activator, its haptic output, or an extra action.
pub struct KeyedAction {
    pub key: String,
    pub action: u32,
}

/// What loading a manifest leaves behind: the loaded sets and actions, the
/// action sets and actions to create in the runtime, and the bindings to
/// suggest for each profile. The runtime action at position `k` has the
/// identifier `k`.
pub struct LoadedActions {
    pub sets: Vec<LoadedSet>,
    pub actions: Vec<LoadedAction>,
    pub runtime_sets: Vec<RuntimeSet>,
    pub runtime_actions: Vec<RuntimeAction>,
    pub suggestions: Vec<ProfileSuggestions>,
    pub keyed: Vec<KeyedAction>,
    pub info_set: u32,
    pub info_action: u32,
    /// The position of each loaded set, by its handle.
    pub set_positions: Positions,
    /// The position of each loaded action, by its handle.
    pub action_positions: Positions,
}

impl LoadedActions {
    /// True when the runtime action behind `a` exists and has the type
    /// that the kind of `a` asks for.
    pub open spec fn action_ok(&self, a: LoadedAction) -> bool {
        match a.kind.runtime_kind() {
            None => a.action.is_none(),
            Some(kind) => a.action.is_some() && a.action.unwrap() < self.runtime_actions@.len()
                && self.runtime_actions@[a.action.unwrap() as int].kind == kind,
        }
    }

    /// True when `s` names a runtime action that exists and an input path
    /// that `profile` offers.
    pub open spec fn suggestion_ok(&self, s: Suggestion, profile: Profile) -> bool {
        s.action < self.runtime_actions@.len() && is_legal(s.path@, profile.legal())
    }

    /// Every identifier names what it should: the runtime actions fit
    /// below the identifiers of the legacy set and belong to runtime sets
    /// that exist; every loaded set has its runtime set and every loaded
    /// action its runtime action, of the type that its kind asks for; no
    /// path is loaded twice; there is one list of suggestions for each
    /// supported profile, in their order; and every suggestion names a
    /// runtime action that exists and a path that its profile offers.
    pub open spec fn wf(&self) -> bool {
        &&& self.sets_found()
        &&& self.actions_found()
        &&& self.runtime_actions@.len() <= LEGACY_FIRST_ACTION
        &&& self.runtime_sets@.len() <= u32::MAX
        &&& self.info_set < self.runtime_sets@.len()
        &&& self.info_action < self.runtime_actions@.len()
        &&& forall|i: int|
            0 <= i < self.runtime_actions@.len() ==> (#[trigger] self.runtime_actions@[i]).set
                < self.runtime_sets@.len()
        &&& forall|i: int|
            0 <= i < self.sets@.len() ==> (#[trigger] self.sets@[i]).runtime_set
                < self.runtime_sets@.len()
        &&& forall|i: int|
            0 <= i < self.actions@.len() ==> self.action_ok(#[trigger] self.actions@[i])
        &&& forall|i: int, j: int|
            0 <= i < j < self.actions@.len() ==> (#[trigger] self.actions@[i]).path@ != (
            #[trigger] self.actions@[j]).path@
        &&& forall|i: int|
            0 <= i < self.keyed@.len() ==> (#[trigger] self.keyed@[i]).action
                < self.runtime_actions@.len()
        &&& self.suggestions@.len() == Profiles::list().len()
        &&& forall|p: int|
            0 <= p < self.suggestions@.len() ==> (#[trigger] self.suggestions@[p]).profile
                == Profiles::list()[p].1
        &&& forall|p: int, j: int|
            0 <= p < self.suggestions@.len() && 0 <= j < self.suggestions@[p].bindings@.len()
                ==> self.suggestion_ok(
                #[trigger] self.suggestions@[p].bindings@[j],
                self.suggestions@[p].profile,
            )
    }

    /// True when the handle of each loaded set finds the position of the
    /// set, and no other value finds a position.
    pub open spec fn sets_found(&self) -> bool {
        &&& forall|i: int|
            0 <= i < self.sets@.len() ==> position_entries(self.set_positions).contains_key(
                (#[trigger] self.sets@[i]).handle,
            ) && position_entries(self.set_positions)[self.sets@[i].handle] == i
        &&& forall|k: u64| #[trigger]
            position_entries(self.set_positions).contains_key(k) ==> position_entries(
                self.set_positions,
            )[k] < self.sets@.len() && self.sets@[position_entries(
                self.set_positions,
            )[k] as int].handle == k
    }

    /// True when the handle of each loaded action finds the position of
    /// the action, and no other value finds a position.
    pub open spec fn actions_found(&self) -> bool {
        &&& forall|i: int|
            0 <= i < self.actions@.len() ==> position_entries(self.action_positions).contains_key(
                (#[trigger] self.actions@[i]).handle,
            ) && position_entries(self.action_positions)[self.actions@[i].handle] == i
        &&& forall|k: u64| #[trigger]
            position_entries(self.action_positions).contains_key(k) ==> position_entries(
                self.action_positions,
            )[k] < self.actions@.len() && self.actions@[position_entries(
                self.action_positions,
            )[k] as int].handle == k
    }

    /// True when `other` holds the same sets and the same actions with
    /// the same handles, paths and kinds: what is fixed once sets and
    /// actions are created.
    pub open spec fn same_identity(&self, other: &LoadedActions) -> bool {
        &&& position_entries(self.set_positions) == position_entries(other.set_positions)
        &&& position_entries(self.action_positions) == position_entries(other.action_positions)
        &&& self.sets@ == other.sets@
        &&& self.actions@.len() == other.actions@.len()
        &&& forall|i: int|
            0 <= i < self.actions@.len() ==> {
                let a = #[trigger] self.actions@[i];
                let b = other.actions@[i];
                &&& a.handle == b.handle
                &&& a.path == b.path
                &&& a.kind == b.kind
                &&& a.hand == b.hand
                &&& a.action == b.action
            }
    }

    /// The position of the first loaded action from `first` on with the
    /// path `path`.
    pub open spec fn path_lookup(actions: Seq<LoadedAction>, path: Seq<char>, first: int) -> Option<
        int,
    >
        decreases actions.len() - first,
    {
        if first < 0 || first >= actions.len() {
            None
        } else if actions[first].path@ == path {
            Some(first)
        } else {
            Self::path_lookup(actions, path, first + 1)
        }
    }

    /// The position of the loaded action with the path `path`.
    pub open spec fn position_of(&self, path: Seq<char>) -> Option<int> {
        Self::path_lookup(self.actions@, path, 0)
    }

    /// Finds the loaded action with the path `path`.
    pub fn find_action(&self, path: &str) -> (r: Option<usize>)
        ensures
            r.is_some() == self.position_of(path@).is_some(),
            r.is_some() ==> r.unwrap() == self.position_of(path@).unwrap(),
            r.is_some() ==> r.unwrap() < self.actions@.len()
                && self.actions@[r.unwrap() as int].path@
                == path@,
            r.is_none() ==> forall|i: int|
                0 <= i < self.actions@.len() ==> (#[trigger] self.actions@[i]).path@ != path@,
    {
        let mut i: usize = 0;
        while i < self.actions.len()
            invariant
                i <= self.actions.len(),
                forall|j: int| 0 <= j < i ==> (#[trigger] self.actions@[j]).path@ != path@,
                Self::path_lookup(self.actions@, path@, 0) == Self::path_lookup(
                    self.actions@,
                    path@,
                    i as int,
                ),
            decreases self.actions.len() - i,
        {
            if str_eq(self.actions[i].path.as_str(), path) {
                return Some(i);
            }
            i += 1;
        }
        None
    }

    /// The position of the first loaded set from `first` on with the
    /// name `name`.
    pub open spec fn name_lookup(sets: Seq<LoadedSet>, name: Seq<char>, first: int) -> Option<int>
        decreases sets.len() - first,
    {
        if first < 0 || first >= sets.len() {
            None
        } else if sets[first].name@ == name {
            Some(first)
        } else {
            Self::name_lookup(sets, name, first + 1)
        }
    }

    /// The position of the loaded set with the name `name`.
    pub open spec fn set_position_of(&self, name: Seq<char>) -> Option<int> {
        Self::name_lookup(self.sets@, name, 0)
    }

    /// Finds the loaded action set with the name `name`.
    pub fn find_set(&self, name: &str) -> (r: Option<usize>)
        ensures
            r.is_some() == self.set_position_of(name@).is_some(),
            r.is_some() ==> r.unwrap() == self.set_position_of(name@).unwrap(),
            r.is_some() ==> r.unwrap() < self.sets@.len() && self.sets@[r.unwrap() as int].name@
                == name@,
            r.is_none() ==> forall|i: int|
                0 <= i < self.sets@.len() ==> (#[trigger] self.sets@[i]).name@ != name@,
    {
        let mut i: usize = 0;
        while i < self.sets.len()
            invariant
                i <= self.sets.len(),
                forall|j: int| 0 <= j < i ==> (#[trigger] self.sets@[j]).name@ != name@,
                Self::name_lookup(self.sets@, name@, 0) == Self::name_lookup(
                    self.sets@,
                    name@,
                    i as int,
                ),
            decreases self.sets.len() - i,
        {
            if str_eq(self.sets[i].name.as_str(), name) {
                return Some(i);
            }
            i += 1;
        }
        None
    }

    /// The identifier of the first shared runtime action from `first` on
    /// that has the key `key`.
    pub open spec fn key_lookup(keyed: Seq<KeyedAction>, key: Seq<char>, first: int) -> Option<u32>
        decreases keyed.len() - first,
    {
        if first < 0 || first >= keyed.len() {
            None
        } else if keyed[first].key@ == key {
            Some(keyed[first].action)
        } else {
            Self::key_lookup(keyed, key, first + 1)
        }
    }

    /// The shared runtime action with the key `key`, if there is one.
    pub open spec fn shared(&self, key: Seq<char>) -> Option<u32> {
        Self::key_lookup(self.keyed@, key, 0)
    }

    /// Finds the shared runtime action with the key `key`.
    pub fn find_keyed(&self, key: &str) -> (r: Option<u32>)
        requires
            self.wf(),
        ensures
            r == self.shared(key@),
            r.is_some() ==> r.unwrap() < self.runtime_actions@.len(),
    {
        let mut i: usize = 0;
        while i < self.keyed.len()
            invariant
                i <= self.keyed.len(),
                self.wf(),
                Self::key_lookup(self.keyed@, key@, 0) == Self::key_lookup(
                    self.keyed@,
                    key@,
                    i as int,
                ),
            decreases self.keyed.len() - i,
        {
            if str_eq(self.keyed[i].key.as_str(), key) {
                return Some(self.keyed[i].action);
            }
            i += 1;
        }
        None
    }

    /// A shared runtime action is found again after more have been added
    /// behind it.
    pub proof fn lemma_lookup_kept(
        before: Seq<KeyedAction>,
        after: Seq<KeyedAction>,
        key: Seq<char>,
        first: int,
    )
        requires
            0 <= first,
            before.len() <= after.len(),
            forall|i: int| 0 <= i < before.len() ==> #[trigger] after[i] == before[i],
            Self::key_lookup(before, key, first).is_some(),
        ensures
            Self::key_lookup(after, key, first) == Self::key_lookup(before, key, first),
        decreases before.len() - first,
    {
        if first < before.len() {
            assert(after[first] == before[first]);
            if before[first].key@ != key {
                Self::lemma_lookup_kept(before, after, key, first + 1);
            }
        }
    }

    /// A shared runtime action that is added behind those that do not
    /// have its key is the one found under that key.
    pub proof fn lemma_lookup_added(
        before: Seq<KeyedAction>,
        added: KeyedAction,
        key: Seq<char>,
        first: int,
    )
        requires
            0 <= first <= before.len(),
            Self::key_lookup(before, key, first).is_none(),
            added.key@ == key,
        ensures
            Self::key_lookup(before.push(added), key, first) == Some(added.action),
        decreases before.len() - first,
    {
        let after = before.push(added);
        if first < before.len() {
            assert(after[first] == before[first]);
            Self::lemma_lookup_added(before, added, key, first + 1);
        } else {
            assert(after[first] == added);
        }
    }

    /// The position of the loaded action that `handle` stands for: the
    /// one whose handle is the value under which a lookup finds `handle`.
    pub fn try_get_action(&self, handle: u64) -> (r: Option<usize>)
        requires
            self.actions_found(),
        ensures
            r.is_some() ==> r.unwrap() < self.actions@.len()
                && self.actions@[r.unwrap() as int].handle
                == canonical(handle),
            r.is_some() ==> forall|j: int|
                0 <= j < self.actions@.len() && j != r.unwrap() ==> (
                #[trigger] self.actions@[j]).handle != canonical(handle),
            r.is_none() ==> forall|i: int|
                0 <= i < self.actions@.len() ==> (#[trigger] self.actions@[i]).handle != canonical(
                    handle,
                ),
    {
        positions_get(&self.action_positions, handle)
    }

    /// The position of the loaded set that `handle` stands for.
    pub fn try_get_set(&self, handle: u64) -> (r: Option<usize>)
        requires
            self.sets_found(),
        ensures
            r.is_some() ==> r.unwrap() < self.sets@.len() && self.sets@[r.unwrap() as int].handle
                == canonical(handle),
            r.is_none() ==> forall|i: int|
                0 <= i < self.sets@.len() ==> (#[trigger] self.sets@[i]).handle != canonical(
                    handle,
                ),
    {
        positions_get(&self.set_positions, handle)
    }
}

} // verus!
