//! The input interface: handles, the action manifest, the state of
//! actions after each sync, and the legacy controller state.
//!
//! The interface decides; the caller acts. A call that needs the runtime
//! returns what to do (the action sets to sync, the space to locate, the
//! vibration to apply), and the caller reports back what the runtime said
//! (the snapshot of a sync, the interaction profile of a hand).

pub mod reads;
pub mod steady;

use crate::action_manifest::loader::load_action_manifest;
use crate::action_manifest::loader::loadable;
use crate::action_manifest::ActionManifest;
use crate::action_manifest::LoadedActions;
use crate::action_manifest::BoundPose;
use crate::devices::controller_index;
use crate::devices::table_in_order;
use crate::devices::PoseLookup;
use crate::devices::TrackedDevice;
use crate::devices::TrackedDeviceClass;
use crate::devices::TrackedDevicePose;
use crate::devices::TrackedDeviceType;
use crate::devices::TrackedDeviceProperty;
use crate::devices::TrackingUniverseOrigin;
use crate::devices::XDev;
use crate::legacy::legacy_actions;
use crate::legacy::legacy_events;
use crate::legacy::legacy_pulse;
use crate::legacy::VRControllerState;
use crate::strings::str_eq;
use crate::devices::TrackedDeviceList;
use crate::error::InputError;
use crate::events::EventQueue;
use crate::events::InputEvent;
use crate::handles::canonical;
use crate::handles::table_ok;
use crate::handles::canonicalize;
use crate::handles::HandleMap;
use crate::legacy::LegacyActionData;
use crate::legacy::LegacyState;
use crate::profiles::Profile;
use crate::fixed::Fixed;
use crate::input::reads::digital_bindings;
use crate::input::reads::digital_merge;
use crate::input::reads::digital_pulses;
use crate::action_manifest::ActionKind;
use crate::runtime::ActionState;
use crate::runtime::Hand;
use crate::runtime::HapticRequest;
use crate::runtime::Snapshot;
use crate::strings::lowercase_of;
use crate::strings::to_lowercase;
use vstd::prelude::*;
use vstd::string::StringExecFns;

verus! {

/// An action set that the host wants synced.
#[derive(Clone, Copy, Debug, PartialEq, Eq)]
pub struct ActiveActionSet {
    pub action_set: u64,
    /// The device that the set is restricted to; the restriction is not
    /// applied.
    pub restricted_to_device: u64,
}

/// What the caller has to sync: the runtime sets of the manifest, by
/// their positions, and the legacy set if it exists.
pub struct SyncRequest {
    pub sets: Vec<u32>,
    pub legacy: bool,
}

/// What the caller has to do at the start of a frame.
#[derive(Clone, Copy, Debug, PartialEq, Eq)]
pub enum FrameAction {
    /// Nothing.
    Idle,
    /// Sync the runtime set at this position, which holds the info
    /// action, so that the runtime reports interaction profiles.
    SyncInfoSet(u32),
    /// Sync the legacy set.
    SyncLegacy,
    /// Create the legacy set, suggest its bindings for every supported
    /// profile, attach it and sync it.
    SetupLegacy,
}

/// The device that an input source belongs to.
#[derive(Clone, Copy, Debug, PartialEq, Eq)]
pub struct InputOriginInfo {
    pub device_path: u64,
    pub tracked_device_index: u32,
}

/// The input interface.
pub struct Input {
    input_source_map: HandleMap,
    left_hand_key: u64,
    right_hand_key: u64,
    action_map: HandleMap,
    set_map: HandleMap,
    loaded_actions_path: Option<String>,
    loaded_actions: Option<LoadedActions>,
    legacy_actions: Option<LegacyActionData>,
    real_session: bool,
    hand_tracking: bool,
    devices: TrackedDeviceList,
    legacy_state: LegacyState,
    events: EventQueue,
    snapshot: Snapshot,
    haptics: Vec<HapticRequest>,
}

impl Input {
    /// The handles of the actions, each with its path.
    pub closed spec fn action_handles(&self) -> Map<u64, Seq<char>> {
        self.action_map@
    }

    /// The handles of the action sets, each with its name.
    pub closed spec fn set_handles(&self) -> Map<u64, Seq<char>> {
        self.set_map@
    }

    /// The handles of the input sources, each with its path.
    pub closed spec fn source_handles(&self) -> Map<u64, Seq<char>> {
        self.input_source_map@
    }

    /// The handle of the left hand.
    pub closed spec fn left_hand(&self) -> u64 {
        self.left_hand_key
    }

    /// The handle of the right hand.
    pub closed spec fn right_hand(&self) -> u64 {
        self.right_hand_key
    }

    /// What the manifest of the session left behind, if one is loaded.
    pub closed spec fn loaded(&self) -> Option<LoadedActions> {
        self.loaded_actions
    }

    /// Whether the legacy set exists in the session.
    pub closed spec fn legacy_ready(&self) -> bool {
        self.legacy_actions.is_some()
    }

    /// Whether the session is the one that frames are rendered in.
    pub closed spec fn in_real_session(&self) -> bool {
        self.real_session
    }

    /// Whether the runtime tracks the hands themselves.
    pub closed spec fn tracks_hands(&self) -> bool {
        self.hand_tracking
    }

    /// The path of the manifest that is loaded again after a restart of
    /// the session.
    pub closed spec fn manifest_path(&self) -> Option<Seq<char>> {
        match self.loaded_actions_path {
            Some(p) => Some(p@),
            None => None,
        }
    }

    /// The devices of the table.
    pub closed spec fn device_table(&self) -> Seq<TrackedDevice> {
        self.devices@
    }

    /// The events that the host has not polled.
    pub closed spec fn pending_events(&self) -> Seq<InputEvent> {
        self.events@
    }

    /// The vibrations that the caller has not taken.
    pub closed spec fn pending_haptics(&self) -> Seq<HapticRequest> {
        self.haptics@
    }

    /// What the interface remembers of the legacy controller state.
    pub closed spec fn legacy(&self) -> LegacyState {
        self.legacy_state
    }

    /// What the runtime reported at the last sync.
    pub closed spec fn readings(&self) -> Snapshot {
        self.snapshot
    }

    /// The legacy set of the session, if it exists.
    pub closed spec fn legacy_set(&self) -> Option<LegacyActionData> {
        self.legacy_actions
    }

    /// The tables of handles are in order, so that a name has one handle
    /// at most; the two hands have their handles; the device table holds
    /// the headset and the controllers of the left and the right hand in
    /// front; what is loaded is in order and carries handles that the
    /// tables hold for its names; and the legacy set, where it exists, is
    /// the set as it is made.
    pub open spec fn wf(&self) -> bool {
        &&& table_ok(self.source_handles())
        &&& table_ok(self.action_handles())
        &&& table_ok(self.set_handles())
        &&& self.source_handles().contains_key(self.left_hand())
        &&& self.source_handles()[self.left_hand()] == "/user/hand/left"@
        &&& self.source_handles().contains_key(self.right_hand())
        &&& self.source_handles()[self.right_hand()] == "/user/hand/right"@
        &&& table_in_order(self.device_table())
        &&& self.get_devices_spec()@ == self.device_table()
        &&& self.loaded().is_some() ==> self.loaded().unwrap().wf()
            && self.loaded().unwrap().registered_in(self.set_handles(), self.action_handles())
        &&& self.legacy_ready() == self.legacy_set().is_some()
        &&& self.legacy_set().is_some() ==> self.legacy_set().unwrap().standard()
    }

    /// What follows from `wf` for every caller: the hands have distinct
    /// handles that are not 0 and come back unchanged from a lookup; a
    /// loaded manifest is in order; device 0 is the headset, and devices 1
    /// and 2 are the controllers of the left and the right hand; no name
    /// has two handles in any of the three tables; and the legacy set,
    /// where it exists, is the set as it is made.
    pub proof fn lemma_wf(&self)
        requires
            self.wf(),
        ensures
            self.left_hand() != self.right_hand(),
            self.left_hand() != 0,
            self.right_hand() != 0,
            canonical(self.left_hand()) == self.left_hand(),
            canonical(self.right_hand()) == self.right_hand(),
            self.source_handles().contains_key(self.left_hand()),
            self.source_handles().contains_key(self.right_hand()),
            self.source_handles()[self.left_hand()] == "/user/hand/left"@,
            self.source_handles()[self.right_hand()] == "/user/hand/right"@,
            self.loaded().is_some() ==> self.loaded().unwrap().wf(),
            self.device_table().len() >= 3,
            self.device_table()[0].device_type is Hmd,
            self.device_table()[1].device_type == (TrackedDeviceType::Controller {
                hand: Hand::Left,
            }),
            self.device_table()[2].device_type == (TrackedDeviceType::Controller {
                hand: Hand::Right,
            }),
            forall|a: u64, b: u64|
                self.action_handles().contains_key(a) && self.action_handles().contains_key(b)
                    && #[trigger] self.action_handles()[a] == #[trigger] self.action_handles()[b]
                    ==> a == b,
            forall|a: u64, b: u64|
                self.set_handles().contains_key(a) && self.set_handles().contains_key(b)
                    && #[trigger] self.set_handles()[a] == #[trigger] self.set_handles()[b] ==> a
                    == b,
            forall|a: u64, b: u64|
                self.source_handles().contains_key(a) && self.source_handles().contains_key(b)
                    && #[trigger] self.source_handles()[a] == #[trigger] self.source_handles()[b]
                    ==> a == b,
            self.legacy_ready() ==> self.legacy_set().is_some()
                && self.legacy_set().unwrap().standard(),
    {
        reveal_strlit("/user/hand/left");
        reveal_strlit("/user/hand/right");
        assert("/user/hand/left"@.len() != "/user/hand/right"@.len());
        crate::handles::lemma_canonical_nonzero(self.left_hand_key);
        crate::handles::lemma_canonical_nonzero(self.right_hand_key);
    }

    /// The interface before anything has happened: the two hands have
    /// their handles, nothing is loaded, the legacy set does not exist,
    /// the table holds the headset and the controllers of the left and
    /// the right hand, which are not connected, and no event waits.
    pub fn new() -> (r: Input)
        ensures
            r.wf(),
            r.loaded().is_none(),
            !r.legacy_ready(),
            !r.in_real_session(),
            !r.tracks_hands(),
            r.manifest_path().is_none(),
            r.action_handles() == (Map::<u64, Seq<char>>::empty()),
            r.set_handles() == (Map::<u64, Seq<char>>::empty()),
            r.source_handles().dom() == (set![r.left_hand(), r.right_hand()]),
            r.pending_events().len() == 0,
            r.pending_haptics().len() == 0,
            r.legacy() == (LegacyState {
                packet_num: 0,
                got_left_state: false,
                got_right_state: false,
            }),
            r.device_table() == crate::devices::fresh_table(),
            r.device_table().len() == 3,
            r.device_table()[0].device_type is Hmd,
            r.device_table()[1].device_type == (TrackedDeviceType::Controller {
                hand: Hand::Left,
            }),
            r.device_table()[2].device_type == (TrackedDeviceType::Controller {
                hand: Hand::Right,
            }),
            r.device_table()[0].connected,
            !r.device_table()[1].connected,
            !r.device_table()[2].connected,
            forall|i: int|
                0 <= i < 3 ==> (#[trigger] r.device_table()[i]).interaction_profile.is_none()
                    && r.device_table()[i].seated_pose.is_none()
                    && r.device_table()[i].standing_pose.is_none(),
            r.legacy_set().is_none(),
            r.readings().readings@.len() == 0,
    {
        let mut input_source_map = HandleMap::new();
        let left = input_source_map.intern(String::from_str("/user/hand/left"));
        proof {
            reveal_strlit("/user/hand/left");
            reveal_strlit("/user/hand/right");
            assert("/user/hand/left"@.len() != "/user/hand/right"@.len());
            assert(!input_source_map.has_path("/user/hand/right"@)) by {
                assert forall|h: u64| input_source_map@.contains_key(h) implies
                    #[trigger] input_source_map@[h] != "/user/hand/right"@ by {}
            }
        }
        let right = input_source_map.intern(String::from_str("/user/hand/right"));
        let left_hand_key: u64 = match left {
            Some(h) => h,
            None => 0,
        };
        let right_hand_key: u64 = match right {
            Some(h) => h,
            None => 0,
        };
        assert(input_source_map@.dom() =~= set![left_hand_key, right_hand_key]);
        Input {
            input_source_map,
            left_hand_key,
            right_hand_key,
            action_map: HandleMap::new(),
            set_map: HandleMap::new(),
            loaded_actions_path: None,
            loaded_actions: None,
            legacy_actions: None,
            real_session: false,
            hand_tracking: false,
            devices: TrackedDeviceList::new(),
            legacy_state: LegacyState::new(),
            events: EventQueue::new(),
            snapshot: Snapshot::new(),
            haptics: Vec::new(),
        }
    }

    /// True when `self` differs from `before` at most in its tables of
    /// handles.
    pub open spec fn same_session(&self, before: &Input) -> bool {
        &&& self.left_hand() == before.left_hand()
        &&& self.right_hand() == before.right_hand()
        &&& self.manifest_path() == before.manifest_path()
        &&& self.loaded() == before.loaded()
        &&& self.legacy_ready() == before.legacy_ready()
        &&& self.legacy_set() == before.legacy_set()
        &&& self.in_real_session() == before.in_real_session()
        &&& self.tracks_hands() == before.tracks_hands()
        &&& self.device_table() == before.device_table()
        &&& self.get_devices_spec() == before.get_devices_spec()
        &&& self.pending_events() == before.pending_events()
        &&& self.pending_haptics() == before.pending_haptics()
        &&& self.legacy() == before.legacy()
        &&& self.readings() == before.readings()
    }

    /// The handle of the action with the name `name`, which is taken in
    /// lowercase: the handle that the name has, or a new one that no
    /// action had. Fails, changing nothing, only when the name is new and
    /// the table is full.
    pub fn get_action_handle(&mut self, name: &str) -> (r: Result<u64, InputError>)
        requires
            old(self).wf(),
        ensures
            final(self).wf(),
            final(self).same_session(old(self)),
            forall|g: u64|
                old(self).action_handles().contains_key(g)
                    && #[trigger] old(self).action_handles()[g] == lowercase_of(name@)
                    ==> r == Ok::<u64, InputError>(g),
            final(self).set_handles() == old(self).set_handles(),
            final(self).source_handles() == old(self).source_handles(),
            forall|h: u64|
                #[trigger] old(self).action_handles().contains_key(h)
                    ==> final(self).action_handles().contains_key(h)
                    && final(self).action_handles()[h] == old(self).action_handles()[h],
            r matches Ok(h) ==> h != 0 && final(self).action_handles().contains_key(h)
                && final(self).action_handles()[h] == lowercase_of(name@),
            r matches Ok(h) ==> (old(self).action_handles().contains_key(h)
                ==> final(self).action_handles() == old(self).action_handles()),
            r matches Ok(h) ==> (!old(self).action_handles().contains_key(h)
                ==> final(self).action_handles()
                == old(self).action_handles().insert(h, lowercase_of(name@))),
            r matches Ok(h) ==> (old(self).action_handles().contains_key(h) <==> exists|g: u64|
                old(self).action_handles().contains_key(g)
                    && #[trigger] old(self).action_handles()[g] == lowercase_of(name@)),
            r matches Err(e) ==> e == InputError::MaxCapacityReached && final(self).action_handles()
                == old(self).action_handles() && old(self).action_handles().len()
                >= HandleMap::capacity(),
    {
        let lowered = to_lowercase(name);
        match self.action_map.intern(lowered) {
            Some(h) => Ok(h),
            None => Err(InputError::MaxCapacityReached),
        }
    }

    /// The handle of the action set with the name `name`, which is taken
    /// in lowercase: the handle that the name has, or a new one that no
    /// action set had. Fails, changing nothing, only when the name is new
    /// and the table is full.
    pub fn get_action_set_handle(&mut self, name: &str) -> (r: Result<u64, InputError>)
        requires
            old(self).wf(),
        ensures
            final(self).wf(),
            final(self).same_session(old(self)),
            forall|g: u64|
                old(self).set_handles().contains_key(g) && #[trigger] old(self).set_handles()[g]
                    == lowercase_of(name@)
                    ==> r == Ok::<u64, InputError>(g),
            final(self).action_handles() == old(self).action_handles(),
            final(self).source_handles() == old(self).source_handles(),
            forall|h: u64|
                #[trigger] old(self).set_handles().contains_key(h)
                    ==> final(self).set_handles().contains_key(h) && final(self).set_handles()[h]
                    == old(self).set_handles()[h],
            r matches Ok(h) ==> h != 0 && final(self).set_handles().contains_key(h)
                && final(self).set_handles()[h] == lowercase_of(name@),
            r matches Ok(h) ==> (old(self).set_handles().contains_key(h)
                ==> final(self).set_handles() == old(self).set_handles()),
            r matches Ok(h) ==> (!old(self).set_handles().contains_key(h)
                ==> final(self).set_handles()
                == old(self).set_handles().insert(h, lowercase_of(name@))),
            r matches Ok(h) ==> (old(self).set_handles().contains_key(h) <==> exists|g: u64|
                old(self).set_handles().contains_key(g) && #[trigger] old(self).set_handles()[g]
                    == lowercase_of(name@)),
            r matches Err(e) ==> e == InputError::MaxCapacityReached && final(self).set_handles()
                == old(self).set_handles() && old(self).set_handles().len()
                >= HandleMap::capacity(),
    {
        let lowered = to_lowercase(name);
        match self.set_map.intern(lowered) {
            Some(h) => Ok(h),
            None => Err(InputError::MaxCapacityReached),
        }
    }

    /// The handle of the input source with the path `path`, which is
    /// taken as it is written: the handle that the path has, or a new one
    /// that no input source had. Fails, changing nothing, only when the
    /// path is new and the table is full.
    pub fn get_input_source_handle(&mut self, path: &str) -> (r: Result<u64, InputError>)
        requires
            old(self).wf(),
        ensures
            final(self).wf(),
            final(self).same_session(old(self)),
            forall|g: u64|
                old(self).source_handles().contains_key(g)
                    && #[trigger] old(self).source_handles()[g] == path@
                    ==> r == Ok::<u64, InputError>(g),
            final(self).action_handles() == old(self).action_handles(),
            final(self).set_handles() == old(self).set_handles(),
            forall|h: u64|
                #[trigger] old(self).source_handles().contains_key(h)
                    ==> final(self).source_handles().contains_key(h)
                    && final(self).source_handles()[h] == old(self).source_handles()[h],
            r matches Ok(h) ==> h != 0 && final(self).source_handles().contains_key(h)
                && final(self).source_handles()[h] == path@,
            r matches Ok(h) ==> (old(self).source_handles().contains_key(h)
                ==> final(self).source_handles() == old(self).source_handles()),
            r matches Ok(h) ==> (!old(self).source_handles().contains_key(h)
                ==> final(self).source_handles() == old(self).source_handles().insert(h, path@)),
            r matches Ok(h) ==> (old(self).source_handles().contains_key(h) <==> exists|g: u64|
                old(self).source_handles().contains_key(g)
                    && #[trigger] old(self).source_handles()[g] == path@),
            path@ == "/user/hand/left"@ ==> r == Ok::<u64, InputError>(old(self).left_hand()),
            path@ == "/user/hand/right"@ ==> r == Ok::<u64, InputError>(old(self).right_hand()),
            r matches Err(e) ==> e == InputError::MaxCapacityReached && final(self).source_handles()
                == old(self).source_handles() && old(self).source_handles().len()
                >= HandleMap::capacity(),
    {
        match self.input_source_map.intern(String::from_str(path)) {
            Some(h) => Ok(h),
            None => Err(InputError::MaxCapacityReached),
        }
    }

    /// The subaction path that a handle of an input source stands for: 0
    /// stands for the null path, which reads across both hands, and the
    /// handles of the two hands stand for the hands. Any other value stands
    /// for no subaction path.
    pub open spec fn subaction_path_of(&self, handle: u64) -> Option<Option<Hand>> {
        if handle == 0 {
            Some(None)
        } else if canonical(handle) == self.left_hand() {
            Some(Some(Hand::Left))
        } else if canonical(handle) == self.right_hand() {
            Some(Some(Hand::Right))
        } else {
            None
        }
    }

    /// Reads the subaction path that a handle of an input source stands
    /// for.
    pub fn subaction_path_from_handle(&self, handle: u64) -> (r: Option<Option<Hand>>)
        ensures
            r == self.subaction_path_of(handle),
    {
        if handle == 0 {
            return Some(None);
        }
        let key: u64 = canonicalize(handle);
        if key == self.left_hand_key {
            Some(Some(Hand::Left))
        } else if key == self.right_hand_key {
            Some(Some(Hand::Right))
        } else {
            None
        }
    }

    /// The handle of the input source of a hand.
    pub fn hand_handle(&self, hand: Hand) -> (r: u64)
        ensures
            r == (match hand {
                Hand::Left => self.left_hand(),
                Hand::Right => self.right_hand(),
            }),
    {
        match hand {
            Hand::Left => self.left_hand_key,
            Hand::Right => self.right_hand_key,
        }
    }

    /// The device behind an input source: the controller of the hand for
    /// the handle of a hand, and no device for any other input source. A
    /// value that is no handle of an input source is an invalid handle.
    pub fn get_origin_tracked_device_info(&self, handle: u64) -> (r: Result<
        InputOriginInfo,
        InputError,
    >)
        requires
            self.wf(),
        ensures
            !self.source_handles().contains_key(canonical(handle)) ==> r == Err::<
                InputOriginInfo,
                InputError,
            >(InputError::InvalidHandle),
            self.source_handles().contains_key(canonical(handle)) ==> r == Ok::<
                InputOriginInfo,
                InputError,
            >(
                if canonical(handle) == self.left_hand() {
                    InputOriginInfo { device_path: handle, tracked_device_index: 1 }
                } else if canonical(handle) == self.right_hand() {
                    InputOriginInfo { device_path: handle, tracked_device_index: 2 }
                } else {
                    InputOriginInfo { device_path: 0, tracked_device_index: 0 }
                },
            ),
    {
        if !self.input_source_map.contains(handle) {
            return Err(InputError::InvalidHandle);
        }
        let key: u64 = canonicalize(handle);
        if key == self.left_hand_key {
            Ok(InputOriginInfo { device_path: handle, tracked_device_index: 1 })
        } else if key == self.right_hand_key {
            Ok(InputOriginInfo { device_path: handle, tracked_device_index: 2 })
        } else {
            Ok(InputOriginInfo { device_path: 0, tracked_device_index: 0 })
        }
    }
}

impl Input {
    /// True when the tables of handles have room for everything that
    /// `manifest` declares.
    pub open spec fn room_for(&self, manifest: &ActionManifest) -> bool {
        &&& self.set_handles().len() + manifest.action_sets@.len() + manifest.actions@.len()
            < HandleMap::capacity()
        &&& self.action_handles().len() + manifest.actions@.len() < HandleMap::capacity()
        &&& manifest.actions@.len() + 1 < crate::legacy::LEGACY_FIRST_ACTION
    }

    /// True when every handle of `before` still stands for the same name.
    pub open spec fn keeps_handles(&self, before: &Input) -> bool {
        &&& self.left_hand() == before.left_hand()
        &&& self.right_hand() == before.right_hand()
        &&& self.source_handles() == before.source_handles()
        &&& forall|h: u64|
            #[trigger] before.action_handles().contains_key(h)
                ==> self.action_handles().contains_key(
                h,
            ) && self.action_handles()[h] == before.action_handles()[h]
        &&& forall|h: u64|
            #[trigger] before.set_handles().contains_key(h) ==> self.set_handles().contains_key(h)
                && self.set_handles()[h] == before.set_handles()[h]
    }

    /// True when what is loaded is what `manifest` declares: every loaded
    /// action is declared by the manifest with its kind, in a set that is
    /// loaded; every declared action that can be loaded, and every
    /// declared set, is loaded; each carries the handle that its name
    /// has, and is to be created in the runtime under the names made from
    /// its path; the binding files are bound for every supported profile;
    /// and the info action is suggested for every boolean and analog
    /// input of every supported profile.
    pub open spec fn holds(&self, manifest: &ActionManifest) -> bool {
        &&& self.loaded().is_some()
        &&& self.loaded().unwrap().wf()
        &&& self.loaded().unwrap().sound(manifest.actions@, manifest.actions@.len() as int)
        &&& self.loaded().unwrap().complete(manifest.actions@, manifest.actions@.len() as int)
        &&& self.loaded().unwrap().info_bound_wide()
        &&& self.loaded().unwrap().named(manifest.localization@)
        &&& exists|declared: LoadedActions| #[trigger]
            declared.declares(*manifest) && LoadedActions::profiles_step(
                &self.loaded().unwrap(),
                &declared,
                *manifest,
                crate::profiles::Profiles::list().len() as int,
            )
        &&& forall|k: int|
            0 <= k < manifest.action_sets@.len() ==> self.loaded().unwrap().has_set(
                lowercase_of((#[trigger] manifest.action_sets@[k]).name@),
            )
        &&& forall|i: int|
            0 <= i < self.loaded().unwrap().actions@.len() ==> self.action_handles().contains_key(
                (#[trigger] self.loaded().unwrap().actions@[i]).handle,
            ) && self.action_handles()[self.loaded().unwrap().actions@[i].handle]
                == self.loaded().unwrap().actions@[i].path@
        &&& forall|i: int|
            0 <= i < self.loaded().unwrap().sets@.len() ==> self.set_handles().contains_key(
                (#[trigger] self.loaded().unwrap().sets@[i]).handle,
            ) && self.set_handles()[self.loaded().unwrap().sets@[i].handle]
                == self.loaded().unwrap().sets@[i].name@
    }

    /// Forgets what belongs to the session: what is loaded, the legacy
    /// set, the devices with their profiles and poses, and the snapshot.
    fn reset_session(&mut self)
        requires
            old(self).wf(),
        ensures
            final(self).wf(),
            final(self).legacy_set().is_none(),
            final(self).keeps_handles(old(self)),
            final(self).action_handles() == old(self).action_handles(),
            final(self).set_handles() == old(self).set_handles(),
            final(self).loaded().is_none(),
            !final(self).legacy_ready(),
            final(self).manifest_path() == old(self).manifest_path(),
            final(self).pending_events() == old(self).pending_events(),
            final(self).pending_haptics() == old(self).pending_haptics(),
            final(self).legacy() == old(self).legacy(),
            final(self).in_real_session() == old(self).in_real_session(),
            final(self).tracks_hands() == old(self).tracks_hands(),
            final(self).device_table() == crate::devices::fresh_table(),
            final(self).device_table().len() == 3,
            !final(self).device_table()[1].connected,
            !final(self).device_table()[2].connected,
            final(self).readings().readings@.len() == 0,
    {
        self.loaded_actions = None;
        self.legacy_actions = None;
        self.devices = TrackedDeviceList::new();
        self.snapshot = Snapshot::new();
    }

    /// Loads a manifest into the session.
    fn load(&mut self, manifest: &ActionManifest) -> (r: Result<(), InputError>)
        requires
            old(self).wf(),
        ensures
            final(self).wf(),
            final(self).legacy_set() == old(self).legacy_set(),
            final(self).keeps_handles(old(self)),
            final(self).legacy_ready() == old(self).legacy_ready(),
            final(self).manifest_path() == old(self).manifest_path(),
            final(self).pending_events() == old(self).pending_events(),
            final(self).pending_haptics() == old(self).pending_haptics(),
            final(self).legacy() == old(self).legacy(),
            final(self).in_real_session() == old(self).in_real_session(),
            final(self).tracks_hands() == old(self).tracks_hands(),
            final(self).device_table() == old(self).device_table(),
            final(self).readings() == old(self).readings(),
            r.is_ok() ==> final(self).holds(manifest),
            r.is_err() ==> final(self).loaded() == old(self).loaded(),
            r matches Err(e) ==> e == InputError::MaxCapacityReached,
            old(self).room_for(manifest) ==> r.is_ok(),
    {
        let ghost sets_before = self.set_map;
        let ghost actions_before = self.action_map;
        match load_action_manifest(manifest, &mut self.set_map, &mut self.action_map) {
            Ok(loaded) => {
                self.loaded_actions = Some(loaded);
                Ok(())
            },
            Err(e) => {
                proof {
                    if self.loaded_actions.is_some() {
                        let l = self.loaded_actions.unwrap();
                        assert forall|i: int| 0 <= i < l.sets@.len()
                            implies self.set_map@.contains_key(
                            (#[trigger] l.sets@[i]).handle,
                        ) && self.set_map@[l.sets@[i].handle] == l.sets@[i].name@ by {
                            assert(sets_before@.contains_key(l.sets@[i].handle));
                        }
                        assert forall|i: int|
                            0 <= i < l.actions@.len() implies self.action_map@.contains_key(
                            (#[trigger] l.actions@[i]).handle,
                        ) && self.action_map@[l.actions@[i].handle] == l.actions@[i].path@ by {
                            assert(actions_before@.contains_key(l.actions@[i].handle));
                        }
                    }
                }
                Err(e)
            },
        }
    }

    /// Loads the manifest that the host names. If the legacy set exists
    /// already, the session has to be restarted first: what belongs to
    /// the session is forgotten, and the result tells the caller to
    /// restart the session of the runtime before it creates what was
    /// loaded. The path is remembered, so that the manifest is loaded
    /// again after any later restart.
    ///
    /// Every handle handed out before stands for the same name after the
    /// load. The load fails only for want of room in a table.
    pub fn set_action_manifest_path(&mut self, path: &str, manifest: &ActionManifest) -> (r: Result<
        bool,
        InputError,
    >)
        requires
            old(self).wf(),
        ensures
            final(self).wf(),
            final(self).legacy_set().is_none(),
            final(self).keeps_handles(old(self)),
            !final(self).legacy_ready(),
            final(self).pending_events() == old(self).pending_events(),
            final(self).pending_haptics() == old(self).pending_haptics(),
            final(self).legacy() == old(self).legacy(),
            final(self).in_real_session() == old(self).in_real_session(),
            final(self).tracks_hands() == old(self).tracks_hands(),
            !old(self).legacy_ready() ==> final(self).device_table() == old(self).device_table()
                && final(self).readings() == old(self).readings(),
            old(self).legacy_ready() ==> final(self).device_table()
                == crate::devices::fresh_table(),
            old(self).legacy_ready() ==> final(self).readings().readings@.len() == 0,
            old(self).legacy_ready() ==> final(self).device_table().len() == 3
                && !final(self).device_table()[1].connected
                && !final(self).device_table()[2].connected,
            r matches Ok(restarted) ==> restarted == old(self).legacy_ready() && final(self).holds(
                manifest,
            ) && final(self).manifest_path() == Some(path@),
            r matches Err(e) ==> e == InputError::MaxCapacityReached && final(self).manifest_path()
                == old(self).manifest_path(),
            old(self).room_for(manifest) ==> r.is_ok(),
    {
        let restarted = self.legacy_actions.is_some();
        if restarted {
            self.reset_session();
        }
        match self.load(manifest) {
            Ok(_) => {
                self.loaded_actions_path = Some(String::from_str(path));
                Ok(restarted)
            },
            Err(e) => Err(e),
        }
    }

    /// Brings the interface into a session that was restarted: what
    /// belonged to the old session is forgotten, and if a manifest was
    /// loaded before, the manifest that the caller read again from the
    /// remembered path is loaded. Every handle handed out before stands
    /// for the same name. A caller that cannot read the manifest again
    /// has nothing to hand in, and has to fail instead.
    pub fn post_session_restart(&mut self, manifest: Option<&ActionManifest>) -> (r: Result<
        (),
        InputError,
    >)
        requires
            old(self).wf(),
            old(self).manifest_path().is_some() ==> manifest.is_some(),
        ensures
            final(self).wf(),
            final(self).in_real_session() == old(self).in_real_session(),
            final(self).tracks_hands() == old(self).tracks_hands(),
            final(self).pending_haptics() == old(self).pending_haptics(),
            final(self).legacy_set().is_none(),
            final(self).keeps_handles(old(self)),
            !final(self).legacy_ready(),
            final(self).manifest_path() == old(self).manifest_path(),
            final(self).pending_events() == old(self).pending_events(),
            final(self).legacy() == old(self).legacy(),
            final(self).device_table() == crate::devices::fresh_table(),
            final(self).device_table().len() == 3,
            !final(self).device_table()[1].connected,
            !final(self).device_table()[2].connected,
            final(self).readings().readings@.len() == 0,
            old(self).manifest_path().is_none() ==> r.is_ok() && final(self).loaded().is_none()
                && final(self).action_handles() == old(self).action_handles()
                && final(self).set_handles() == old(self).set_handles(),
            old(self).manifest_path().is_some() && r.is_ok() ==> final(self).holds(
                manifest.unwrap(),
            ),
            r.is_err() ==> final(self).loaded().is_none(),
            r matches Err(e) ==> e == InputError::MaxCapacityReached,
            manifest.is_some() && old(self).room_for(manifest.unwrap()) ==> r.is_ok(),
    {
        self.reset_session();
        if self.loaded_actions_path.is_none() {
            return Ok(());
        }
        match manifest {
            Some(m) => self.load(m),
            None => Ok(()),
        }
    }

    /// Tells the interface whether the session is the one that frames are
    /// rendered in. The legacy set is only created in that session.
    pub fn set_real_session(&mut self, is_real: bool)
        requires
            old(self).wf(),
        ensures
            final(self).wf(),
            final(self).tracks_hands() == old(self).tracks_hands(),
            final(self).manifest_path() == old(self).manifest_path(),
            final(self).pending_haptics() == old(self).pending_haptics(),
            final(self).legacy_set() == old(self).legacy_set(),
            final(self).in_real_session() == is_real,
            final(self).keeps_handles(old(self)),
            final(self).action_handles() == old(self).action_handles(),
            final(self).set_handles() == old(self).set_handles(),
            final(self).loaded() == old(self).loaded(),
            final(self).legacy_ready() == old(self).legacy_ready(),
            final(self).device_table() == old(self).device_table(),
            final(self).pending_events() == old(self).pending_events(),
            final(self).legacy() == old(self).legacy(),
            final(self).readings() == old(self).readings(),
    {
        self.real_session = is_real;
    }

    /// Tells the interface whether the runtime tracks the hands
    /// themselves.
    pub fn set_hand_tracking(&mut self, active: bool)
        requires
            old(self).wf(),
        ensures
            final(self).wf(),
            final(self).in_real_session() == old(self).in_real_session(),
            final(self).manifest_path() == old(self).manifest_path(),
            final(self).pending_haptics() == old(self).pending_haptics(),
            final(self).legacy_set() == old(self).legacy_set(),
            final(self).tracks_hands() == active,
            final(self).keeps_handles(old(self)),
            final(self).action_handles() == old(self).action_handles(),
            final(self).set_handles() == old(self).set_handles(),
            final(self).loaded() == old(self).loaded(),
            final(self).legacy_ready() == old(self).legacy_ready(),
            final(self).device_table() == old(self).device_table(),
            final(self).pending_events() == old(self).pending_events(),
            final(self).legacy() == old(self).legacy(),
            final(self).readings() == old(self).readings(),
    {
        self.hand_tracking = active;
    }

    /// Records what the runtime reported at the sync that the caller has
    /// just made. Every read until the next sync goes by this snapshot.
    pub fn set_snapshot(&mut self, snapshot: Snapshot)
        requires
            old(self).wf(),
        ensures
            final(self).wf(),
            final(self).in_real_session() == old(self).in_real_session(),
            final(self).tracks_hands() == old(self).tracks_hands(),
            final(self).manifest_path() == old(self).manifest_path(),
            final(self).legacy_set() == old(self).legacy_set(),
            final(self).readings() == snapshot,
            final(self).keeps_handles(old(self)),
            final(self).action_handles() == old(self).action_handles(),
            final(self).set_handles() == old(self).set_handles(),
            final(self).loaded() == old(self).loaded(),
            final(self).legacy_ready() == old(self).legacy_ready(),
            final(self).device_table() == old(self).device_table(),
            final(self).pending_events() == old(self).pending_events(),
            final(self).pending_haptics() == old(self).pending_haptics(),
            final(self).legacy() == old(self).legacy(),
    {
        self.snapshot = snapshot;
    }

    /// Records the interaction profile that the runtime reports for a
    /// hand: the controller is connected exactly while it has a profile, a
    /// change of the connection gives an event, and the pose cache is
    /// emptied.
    pub fn set_interaction_profile(&mut self, hand: Hand, profile_path: u64, profile: Option<Profile>)
        requires
            old(self).wf(),
        ensures
            final(self).wf(),
            final(self).in_real_session() == old(self).in_real_session(),
            final(self).tracks_hands() == old(self).tracks_hands(),
            final(self).manifest_path() == old(self).manifest_path(),
            final(self).pending_haptics() == old(self).pending_haptics(),
            final(self).legacy_set() == old(self).legacy_set(),
            final(self).keeps_handles(old(self)),
            final(self).action_handles() == old(self).action_handles(),
            final(self).set_handles() == old(self).set_handles(),
            final(self).loaded() == old(self).loaded(),
            final(self).legacy_ready() == old(self).legacy_ready(),
            final(self).legacy() == old(self).legacy(),
            final(self).readings() == old(self).readings(),
            final(self).device_table().len() == old(self).device_table().len(),
            final(self).device_table() == crate::devices::profile_set(
                old(self).device_table(),
                hand,
                profile_path,
                profile,
            ),
            ({
                let i = crate::devices::controller_index(hand);
                let d = final(self).device_table()[i];
                &&& d.interaction_profile == profile
                &&& d.profile_path == profile_path
                &&& d.connected == profile.is_some()
                &&& final(self).pending_events()
                    == (if old(self).device_table()[i].previous_connected != profile.is_some() {
                    old(self).pending_events().push(
                        InputEvent {
                            ty: if profile.is_some() {
                                crate::events::EventType::TrackedDeviceActivated
                            } else {
                                crate::events::EventType::TrackedDeviceDeactivated
                            },
                            index: i as u32,
                            button: 0,
                        },
                    )
                } else {
                    old(self).pending_events()
                })
            }),
            forall|i: int|
                0 <= i < final(self).device_table().len()
                    ==> (#[trigger] final(self).device_table()[i]).seated_pose.is_none()
                    && final(self).device_table()[i].standing_pose.is_none(),
            forall|i: int|
                0 <= i < old(self).device_table().len() && i != crate::devices::controller_index(
                    hand,
                ) ==> (#[trigger] final(self).device_table()[i]).connected
                    == old(self).device_table()[i].connected
                    && final(self).device_table()[i].interaction_profile
                    == old(self).device_table()[i].interaction_profile,
    {
        self.devices.set_interaction_profile(hand, profile_path, profile, &mut self.events);
    }

    /// Drops every cached pose, so that the next read of a device locates
    /// it anew. The caller asks for this when the reference space
    /// changes, by a recenter or a change of the tracking universe.
    pub fn clear_pose_cache(&mut self)
        requires
            old(self).wf(),
        ensures
            final(self).wf(),
            final(self).in_real_session() == old(self).in_real_session(),
            final(self).tracks_hands() == old(self).tracks_hands(),
            final(self).legacy_set() == old(self).legacy_set(),
            final(self).keeps_handles(old(self)),
            final(self).action_handles() == old(self).action_handles(),
            final(self).set_handles() == old(self).set_handles(),
            final(self).source_handles() == old(self).source_handles(),
            final(self).loaded() == old(self).loaded(),
            final(self).legacy_ready() == old(self).legacy_ready(),
            final(self).legacy() == old(self).legacy(),
            final(self).pending_events() == old(self).pending_events(),
            final(self).pending_haptics() == old(self).pending_haptics(),
            final(self).readings() == old(self).readings(),
            final(self).manifest_path() == old(self).manifest_path(),
            final(self).device_table().len() == old(self).device_table().len(),
            forall|i: int|
                0 <= i < final(self).device_table().len()
                    ==> #[trigger] final(self).device_table()[i]
                    == old(self).device_table()[i].without_poses(),
    {
        self.devices.clear_pose_cache();
        proof {
            assert forall|i: int| 0 <= i < self.devices@.len() implies #[trigger] self.devices@[i]
                == old(self).devices@[i].without_poses() by {}
        }
    }

    /// Starts a frame: every cached pose is dropped, and the caller is
    /// told what to sync.
    ///
    /// With a manifest loaded the host syncs its sets itself; only while
    /// a controller is not connected the set with the info action is to be
    /// synced, so that the runtime reports interaction profiles, and every
    /// custom binding forgets its stored result before that sync. Without a
    /// manifest the legacy set is synced, which counts as a sync for the
    /// legacy controller state; if the legacy set does not exist yet, it
    /// is to be set up, but only in the session that frames are rendered
    /// in.
    pub fn frame_start_update(&mut self) -> (r: FrameAction)
        requires
            old(self).wf(),
        ensures
            final(self).wf(),
            final(self).in_real_session() == old(self).in_real_session(),
            final(self).tracks_hands() == old(self).tracks_hands(),
            final(self).manifest_path() == old(self).manifest_path(),
            final(self).pending_haptics() == old(self).pending_haptics(),
            r != FrameAction::SetupLegacy ==> final(self).legacy_set() == old(self).legacy_set(),
            r == FrameAction::SetupLegacy ==> final(self).legacy_set().is_some()
                && final(self).legacy_set().unwrap().standard(),
            final(self).keeps_handles(old(self)),
            final(self).action_handles() == old(self).action_handles(),
            final(self).set_handles() == old(self).set_handles(),
            final(self).loaded().is_some() == old(self).loaded().is_some(),
            r matches FrameAction::SyncInfoSet(_)
                ==> final(self).loaded().unwrap().is_unsynced_from(
                &old(self).loaded().unwrap(),
            ),
            !(r matches FrameAction::SyncInfoSet(_)) ==> final(self).loaded() == old(self).loaded(),
            final(self).pending_events() == old(self).pending_events(),
            final(self).readings() == old(self).readings(),
            final(self).device_table().len() == old(self).device_table().len(),
            forall|i: int|
                0 <= i < final(self).device_table().len()
                    ==> #[trigger] final(self).device_table()[i]
                    == old(self).device_table()[i].without_poses(),
            r == (if old(self).loaded().is_some() {
                if !old(self).device_table()[1].connected
                    || !old(self).device_table()[2].connected {
                    FrameAction::SyncInfoSet(old(self).loaded().unwrap().info_set)
                } else {
                    FrameAction::Idle
                }
            } else if old(self).legacy_ready() {
                FrameAction::SyncLegacy
            } else if old(self).in_real_session() {
                FrameAction::SetupLegacy
            } else {
                FrameAction::Idle
            }),
            final(self).legacy_ready() == (old(self).legacy_ready() || r
                == FrameAction::SetupLegacy),
            final(self).legacy() == (if r == FrameAction::SyncLegacy {
                LegacyState {
                    packet_num: LegacyState::next_packet(old(self).legacy().packet_num),
                    got_left_state: false,
                    got_right_state: false,
                }
            } else {
                old(self).legacy()
            }),
    {
        self.devices.clear_pose_cache();
        proof {
            assert forall|i: int| 0 <= i < self.devices@.len() implies #[trigger] self.devices@[i]
                == old(self).devices@[i].without_poses() by {}
        }
        if self.loaded_actions.is_some() {
            let left = self.devices.get_controller(Hand::Left).connected;
            let right = self.devices.get_controller(Hand::Right).connected;
            if left && right {
                return FrameAction::Idle;
            }
            let mut loaded = match self.loaded_actions.take() {
                Some(l) => l,
                None => {
                    return FrameAction::Idle;
                },
            };
            let ghost before = loaded;
            loaded.unsync_all();
            proof {
                assert forall|i: int|
                    0 <= i < loaded.actions@.len() implies self.action_map@.contains_key(
                    (#[trigger] loaded.actions@[i]).handle,
                ) && self.action_map@[loaded.actions@[i].handle] == loaded.actions@[i].path@ by {
                    assert(before.actions@[i].handle == loaded.actions@[i].handle);
                }
            }
            let info_set: u32 = loaded.info_set;
            self.loaded_actions = Some(loaded);
            return FrameAction::SyncInfoSet(info_set);
        }
        if self.legacy_actions.is_some() {
            self.legacy_state.on_action_sync();
            return FrameAction::SyncLegacy;
        }
        if !self.real_session {
            return FrameAction::Idle;
        }
        self.setup_legacy_actions();
        FrameAction::SetupLegacy
    }

    /// Makes the legacy set, for the caller to create in the runtime
    /// together with the bindings that are suggested for it on each
    /// profile. The set is made once in a session, and only while no
    /// manifest is loaded.
    pub fn setup_legacy_actions(&mut self)
        requires
            old(self).wf(),
            !old(self).legacy_ready(),
            old(self).loaded().is_none(),
        ensures
            final(self).wf(),
            final(self).legacy_set().is_some(),
            final(self).legacy_set().unwrap().standard(),
            final(self).legacy_ready(),
            final(self).keeps_handles(old(self)),
            final(self).action_handles() == old(self).action_handles(),
            final(self).set_handles() == old(self).set_handles(),
            final(self).source_handles() == old(self).source_handles(),
            final(self).loaded() == old(self).loaded(),
            final(self).legacy() == old(self).legacy(),
            final(self).device_table() == old(self).device_table(),
            final(self).pending_events() == old(self).pending_events(),
            final(self).pending_haptics() == old(self).pending_haptics(),
            final(self).readings() == old(self).readings(),
            final(self).manifest_path() == old(self).manifest_path(),
            final(self).in_real_session() == old(self).in_real_session(),
            final(self).tracks_hands() == old(self).tracks_hands(),
    {
        self.legacy_actions = Some(LegacyActionData::new());
    }

    /// Takes the vibrations that reads have asked for since the last
    /// call, in their order.
    pub fn take_haptics(&mut self) -> (r: Vec<HapticRequest>)
        requires
            old(self).wf(),
        ensures
            final(self).wf(),
            final(self).in_real_session() == old(self).in_real_session(),
            final(self).tracks_hands() == old(self).tracks_hands(),
            final(self).manifest_path() == old(self).manifest_path(),
            final(self).legacy_set() == old(self).legacy_set(),
            r@ == old(self).pending_haptics(),
            final(self).pending_haptics().len() == 0,
            final(self).keeps_handles(old(self)),
            final(self).action_handles() == old(self).action_handles(),
            final(self).set_handles() == old(self).set_handles(),
            final(self).loaded() == old(self).loaded(),
            final(self).legacy_ready() == old(self).legacy_ready(),
            final(self).device_table() == old(self).device_table(),
            final(self).pending_events() == old(self).pending_events(),
            final(self).legacy() == old(self).legacy(),
            final(self).readings() == old(self).readings(),
    {
        let mut out: Vec<HapticRequest> = Vec::new();
        std::mem::swap(&mut out, &mut self.haptics);
        out
    }

    /// What is loaded, for the caller to create in the runtime.
    pub fn get_loaded_actions(&self) -> (r: Option<&LoadedActions>)
        ensures
            r.is_some() == self.loaded().is_some(),
            r.is_some() ==> *r.unwrap() == self.loaded().unwrap(),
    {
        self.loaded_actions.as_ref()
    }

    /// The legacy set, for the caller to create in the runtime: the set
    /// `xrizer-legacy-set` with its twelve actions, where it exists.
    pub fn get_legacy_actions(&self) -> (r: Option<&LegacyActionData>)
        requires
            self.wf(),
        ensures
            r.is_some() == self.legacy_ready(),
            r.is_some() == self.legacy_set().is_some(),
            r.is_some() ==> *r.unwrap() == self.legacy_set().unwrap() && r.unwrap().standard(),
    {
        self.legacy_actions.as_ref()
    }

    /// The table of tracked devices.
    pub fn get_devices(&self) -> (r: &TrackedDeviceList)
        ensures
            r@ == self.device_table(),
    {
        &self.devices
    }
}

/// The state of a boolean action, as the host reads it.
#[derive(Clone, Copy, Debug, PartialEq, Eq)]
pub struct InputDigitalActionData {
    pub active: bool,
    pub active_origin: u64,
    pub state: bool,
    pub changed: bool,
}

/// The state of an analog action, as the host reads it: the value and
/// how far it has moved since the last read.
#[derive(Clone, Copy, Debug, PartialEq, Eq)]
pub struct InputAnalogActionData {
    pub active: bool,
    pub active_origin: u64,
    pub x: Fixed,
    pub y: Fixed,
    pub z: Fixed,
    pub delta_x: Fixed,
    pub delta_y: Fixed,
    pub delta_z: Fixed,
}

/// True when a set with the handle that a lookup makes of `handle` is
/// loaded.
pub open spec fn knows_set(loaded: LoadedActions, handle: u64) -> bool {
    exists|i: int| 0 <= i < loaded.sets@.len() && (#[trigger] loaded.sets@[i]).handle
        == canonical(handle)
}

/// True when an action with the handle that a lookup makes of `handle`
/// is loaded.
pub open spec fn knows_action(loaded: LoadedActions, handle: u64) -> bool {
    exists|i: int|
        0 <= i < loaded.actions@.len() && (#[trigger] loaded.actions@[i]).handle
            == canonical(handle)
}

/// The position of the first loaded action with the handle that a lookup
/// makes of `handle`, from `first` on.
pub open spec fn action_index(loaded: LoadedActions, handle: u64, first: int) -> int
    decreases loaded.actions@.len() - first,
{
    if first < 0 || first >= loaded.actions@.len() {
        loaded.actions@.len() as int
    } else if loaded.actions@[first].handle == canonical(handle) {
        first
    } else {
        action_index(loaded, handle, first + 1)
    }
}

/// The position that `try_get_action` finds is the position that
/// `action_index` names.
pub proof fn lemma_action_index(loaded: LoadedActions, handle: u64, found: int, first: int)
    requires
        0 <= first <= found < loaded.actions@.len(),
        loaded.actions@[found].handle == canonical(handle),
        forall|j: int| 0 <= j < found
            ==> (#[trigger] loaded.actions@[j]).handle != canonical(handle),
    ensures
        action_index(loaded, handle, first) == found,
    decreases found - first,
{
    if first < found {
        lemma_action_index(loaded, handle, found, first + 1);
    }
}

/// Where an action with the handle that a lookup makes of `handle` is
/// loaded at `at`, `action_index` names a position up to `at` that holds
/// such an action.
pub proof fn lemma_action_index_found(loaded: LoadedActions, handle: u64, at: int, first: int)
    requires
        0 <= first <= at < loaded.actions@.len(),
        loaded.actions@[at].handle == canonical(handle),
    ensures
        first <= action_index(loaded, handle, first) <= at,
        loaded.actions@[action_index(loaded, handle, first)].handle == canonical(handle),
    decreases at - first,
{
    if loaded.actions@[first].handle != canonical(handle) {
        lemma_action_index_found(loaded, handle, at, first + 1);
    }
}

/// While bindings are read and stored, the loaded actions keep their
/// handles: a handle finds an action after a step exactly if it found
/// one before, and at the same position.
pub proof fn lemma_index_kept(before: LoadedActions, after: LoadedActions, handle: u64, first: int)
    requires
        after.same_identity(&before),
        0 <= first,
    ensures
        knows_action(after, handle) == knows_action(before, handle),
        action_index(after, handle, first) == action_index(before, handle, first),
    decreases before.actions@.len() - first,
{
    if first < before.actions@.len() {
        assert(after.actions@[first].handle == before.actions@[first].handle);
        lemma_index_kept(before, after, handle, first + 1);
    }
    if knows_action(before, handle) {
        let i = choose|i: int|
            0 <= i < before.actions@.len() && (#[trigger] before.actions@[i]).handle
                == canonical(handle);
        assert(after.actions@[i].handle == canonical(handle));
    }
    if knows_action(after, handle) {
        let i = choose|i: int|
            0 <= i < after.actions@.len() && (#[trigger] after.actions@[i]).handle == canonical(
                handle,
            );
        assert(before.actions@[i].handle == canonical(handle));
    }
}

impl Input {
    /// A handle finds the loaded action of its name: where an action with
    /// the path `path` is loaded, the handle that the table of actions
    /// holds for `path` is the handle of that action, and a read with the
    /// handle finds the action.
    pub proof fn lemma_handle_finds_action(&self, handle: u64, path: Seq<char>)
        requires
            self.wf(),
            self.loaded().is_some(),
            self.loaded().unwrap().has_action(path),
            self.action_handles().contains_key(handle),
            self.action_handles()[handle] == path,
        ensures
            knows_action(self.loaded().unwrap(), handle),
            0 <= action_index(self.loaded().unwrap(), handle, 0)
                < self.loaded().unwrap().actions@.len(),
            self.loaded().unwrap().actions@[action_index(
                self.loaded().unwrap(),
                handle,
                0,
            )].handle == handle,
            self.loaded().unwrap().actions@[action_index(self.loaded().unwrap(), handle, 0)].path@
                == path,
            self.loaded().unwrap().position_of(path) == Some(
                action_index(self.loaded().unwrap(), handle, 0),
            ),
    {
        let loaded = self.loaded().unwrap();
        let i = choose|i: int|
            0 <= i < loaded.actions@.len() && (#[trigger] loaded.actions@[i]).path@ == path;
        let held = loaded.actions@[i].handle;
        assert(self.action_handles().contains_key(held) && self.action_handles()[held] == path);
        assert(self.action_handles()[held] == self.action_handles()[handle]);
        assert(held == handle);
        assert(canonical(handle) == handle);
        lemma_action_index_found(loaded, handle, i, 0);
        let found = action_index(loaded, handle, 0);
        assert(self.action_handles()[loaded.actions@[found].handle]
            == loaded.actions@[found].path@);
        lemma_position_of(loaded, path, found, 0);
    }

    /// After a load, the handle of a declared action finds that action:
    /// where the manifest that is loaded declares an action that can be
    /// loaded, and every declaration of its name gives it the same type,
    /// the handle that the table holds for the name in lowercase finds
    /// the loaded action of that name, with the kind of the declared
    /// type.
    pub proof fn lemma_declared_action(&self, manifest: &ActionManifest, k: int, handle: u64)
        requires
            self.wf(),
            self.holds(manifest),
            0 <= k < manifest.actions@.len(),
            loadable(manifest.actions@[k]),
            forall|j: int|
                0 <= j < manifest.actions@.len() && lowercase_of(
                    (#[trigger] manifest.actions@[j]).name@,
                ) == lowercase_of(manifest.actions@[k].name@) ==> manifest.actions@[j].ty
                    == manifest.actions@[k].ty,
            self.action_handles().contains_key(handle),
            self.action_handles()[handle] == lowercase_of(manifest.actions@[k].name@),
        ensures
            knows_action(self.loaded().unwrap(), handle),
            0 <= action_index(self.loaded().unwrap(), handle, 0)
                < self.loaded().unwrap().actions@.len(),
            self.loaded().unwrap().actions@[action_index(self.loaded().unwrap(), handle, 0)].path@
                == lowercase_of(manifest.actions@[k].name@),
            self.loaded().unwrap().actions@[action_index(self.loaded().unwrap(), handle, 0)].kind
                == ActionKind::of(manifest.actions@[k].ty),
    {
        let loaded = self.loaded().unwrap();
        let path = lowercase_of(manifest.actions@[k].name@);
        assert(loaded.has_action(path));
        self.lemma_handle_finds_action(handle, path);
        let found = action_index(loaded, handle, 0);
        let j = choose|j: int|
            0 <= j < manifest.actions@.len() && #[trigger] loaded.declared_by(
                found,
                manifest.actions@[j],
            );
        assert(lowercase_of(manifest.actions@[j].name@) == path);
    }

    /// After a load, the handle of a declared skeleton action finds that
    /// action with its hand: where every declaration of the name gives a
    /// skeleton of the same path, the loaded action has the hand that the
    /// path names.
    pub proof fn lemma_declared_skeleton(&self, manifest: &ActionManifest, k: int, handle: u64)
        requires
            self.wf(),
            self.holds(manifest),
            0 <= k < manifest.actions@.len(),
            loadable(manifest.actions@[k]),
            manifest.actions@[k].ty == crate::action_manifest::ActionType::Skeleton,
            forall|j: int|
                0 <= j < manifest.actions@.len() && lowercase_of(
                    (#[trigger] manifest.actions@[j]).name@,
                ) == lowercase_of(manifest.actions@[k].name@) ==> manifest.actions@[j].ty
                    == manifest.actions@[k].ty && manifest.actions@[j].skeleton
                    == manifest.actions@[k].skeleton,
            self.action_handles().contains_key(handle),
            self.action_handles()[handle] == lowercase_of(manifest.actions@[k].name@),
        ensures
            knows_action(self.loaded().unwrap(), handle),
            self.loaded().unwrap().actions@[action_index(self.loaded().unwrap(), handle, 0)].kind
                == ActionKind::Skeleton,
            self.loaded().unwrap().actions@[action_index(self.loaded().unwrap(), handle, 0)].hand
                == crate::action_manifest::classify::skeleton_hand_of(
                lowercase_of(manifest.actions@[k].skeleton.unwrap()@),
            ),
    {
        let loaded = self.loaded().unwrap();
        let path = lowercase_of(manifest.actions@[k].name@);
        assert(loaded.has_action(path));
        self.lemma_handle_finds_action(handle, path);
        let found = action_index(loaded, handle, 0);
        let j = choose|j: int|
            0 <= j < manifest.actions@.len() && #[trigger] loaded.declared_by(
                found,
                manifest.actions@[j],
            );
        assert(lowercase_of(manifest.actions@[j].name@) == path);
    }

    /// A pose that the manifest binds is the pose that a read reports:
    /// where the manifest that is loaded binds a pose for the left hand
    /// to a pose action, for the profile that the left controller has, a
    /// read of the action without restriction is active and reports the
    /// pose of the left controller.
    pub proof fn lemma_bound_pose_is_read(
        &self,
        manifest: &ActionManifest,
        handle: u64,
        origin: TrackingUniverseOrigin,
        p: int,
        f: int,
        b: int,
        j: int,
    )
        requires
            self.wf(),
            self.holds(manifest),
            knows_action(self.loaded().unwrap(), handle),
            self.loaded().unwrap().manifest_binds_pose(
                *manifest,
                p,
                f,
                b,
                j,
                action_index(self.loaded().unwrap(), handle, 0),
                Hand::Left,
            ),
            self.profile_of(Hand::Left) == Some(crate::profiles::Profiles::list()[p].1),
        ensures
            self.pose_reading(handle, origin, 0) == Ok::<InputPoseActionData, InputError>(
                InputPoseActionData {
                    active: true,
                    active_origin: self.left_hand(),
                    pose: self.get_devices_spec().lookup(1, origin),
                },
            ),
    {
        let loaded = self.loaded().unwrap();
        let index = action_index(loaded, handle, 0);
        let declared = choose|declared: LoadedActions| #[trigger]
            declared.declares(*manifest) && LoadedActions::profiles_step(
                &loaded,
                &declared,
                *manifest,
                crate::profiles::Profiles::list().len() as int,
            );
        LoadedActions::lemma_load_binds_poses(
            &loaded,
            &declared,
            *manifest,
            p,
            f,
            b,
            j,
            index,
            Hand::Left,
        );
    }

    /// What the manifest binds plainly is suggested: where the manifest
    /// that is loaded binds an input plainly to an action for a supported
    /// profile, the input path is among the bindings to suggest for that
    /// profile, for the runtime action of the action.
    pub proof fn lemma_plain_binding_is_suggested(
        &self,
        manifest: &ActionManifest,
        p: int,
        f: int,
        b: int,
        s: int,
        k: int,
        action: u32,
        path: Seq<char>,
    )
        requires
            self.wf(),
            self.holds(manifest),
            self.loaded().unwrap().manifest_binds_plainly(*manifest, p, f, b, s, k, action, path),
        ensures
            self.loaded().unwrap().suggested(p, action, path),
    {
        let loaded = self.loaded().unwrap();
        let declared = choose|declared: LoadedActions| #[trigger]
            declared.declares(*manifest) && LoadedActions::profiles_step(
                &loaded,
                &declared,
                *manifest,
                crate::profiles::Profiles::list().len() as int,
            );
        LoadedActions::lemma_load_suggests(
            &loaded,
            &declared,
            *manifest,
            p,
            f,
            b,
            s,
            k,
            action,
            path,
        );
    }

    /// A handle finds the loaded set of its name: where a set with the
    /// name `name` is loaded, the handle that the table of sets holds for
    /// `name` is the handle of that set.
    pub proof fn lemma_handle_finds_set(&self, handle: u64, name: Seq<char>)
        requires
            self.wf(),
            self.loaded().is_some(),
            self.loaded().unwrap().has_set(name),
            self.set_handles().contains_key(handle),
            self.set_handles()[handle] == name,
        ensures
            knows_set(self.loaded().unwrap(), handle),
    {
        let loaded = self.loaded().unwrap();
        let i = choose|i: int|
            0 <= i < loaded.sets@.len() && (#[trigger] loaded.sets@[i]).name@ == name;
        let held = loaded.sets@[i].handle;
        assert(self.set_handles().contains_key(held) && self.set_handles()[held] == name);
        assert(self.set_handles()[held] == self.set_handles()[handle]);
        assert(held == handle);
        assert(canonical(handle) == handle);
    }
}

/// In what is loaded no path is loaded twice, so the position of the
/// action with the path `path` is the position that holds that path.
pub proof fn lemma_position_of(loaded: LoadedActions, path: Seq<char>, at: int, first: int)
    requires
        loaded.wf(),
        0 <= first <= at < loaded.actions@.len(),
        loaded.actions@[at].path@ == path,
    ensures
        LoadedActions::path_lookup(loaded.actions@, path, first) == Some(at),
    decreases at - first,
{
    if first < at {
        assert(loaded.actions@[first].path@ != loaded.actions@[at].path@);
        lemma_position_of(loaded, path, at, first + 1);
    }
}

/// The state of the boolean action at `index`: what the runtime reports
/// for the action itself, merged with what its custom bindings report.
/// For each hand that `restrict` admits, the left hand first, the custom
/// bindings that the action has for the profile of that hand are read in
/// their order.
pub open spec fn digital_state(
    loaded: LoadedActions,
    index: int,
    snapshot: &Snapshot,
    restrict: Option<Hand>,
    left: Option<Profile>,
    right: Option<Profile>,
) -> ActionState<bool> {
    digital_merge(
        loaded,
        index,
        snapshot,
        restrict,
        left,
        right,
        snapshot.bool_of(loaded.actions@[index].action.unwrap(), restrict),
    )
}

/// True when `runtime_set` is the runtime set of a loaded set with the
/// handle that a lookup makes of `handle`.
pub open spec fn runtime_set_of(loaded: LoadedActions, handle: u64, runtime_set: u32) -> bool {
    exists|i: int|
        0 <= i < loaded.sets@.len() && (#[trigger] loaded.sets@[i]).handle == canonical(handle)
            && loaded.sets@[i].runtime_set == runtime_set
}

/// The runtime sets of the action sets that the host names, in their
/// order; `None` if one of the handles stands for no loaded set.
pub fn sets_to_sync(loaded: &LoadedActions, active_sets: &Vec<ActiveActionSet>) -> (r: Option<
    Vec<u32>,
>)
    requires
        loaded.wf(),
    ensures
        r.is_none() <==> exists|k: int|
            0 <= k < active_sets@.len() && !knows_set(
                *loaded,
                (#[trigger] active_sets@[k]).action_set,
            ),
        r matches Some(sets) ==> sets@.len() == active_sets@.len() && forall|k: int|
            0 <= k < active_sets@.len() ==> runtime_set_of(
                *loaded,
                active_sets@[k].action_set,
                #[trigger] sets@[k],
            ),
{
    let mut sets: Vec<u32> = Vec::new();
    let mut k: usize = 0;
    while k < active_sets.len()
        invariant
            k <= active_sets.len(),
            loaded.wf(),
            sets@.len() == k,
            forall|j: int|
                0 <= j < k ==> runtime_set_of(
                    *loaded,
                    active_sets@[j].action_set,
                    #[trigger] sets@[j],
                ),
            forall|j: int| 0 <= j < k
                ==> knows_set(*loaded, (#[trigger] active_sets@[j]).action_set),
        decreases active_sets.len() - k,
    {
        match loaded.try_get_set(active_sets[k].action_set) {
            Some(i) => {
                sets.push(loaded.sets[i].runtime_set);
                assert(runtime_set_of(
                    *loaded,
                    active_sets@[k as int].action_set,
                    loaded.sets@[i as int].runtime_set,
                ));
            },
            None => {
                assert(!knows_set(*loaded, active_sets@[k as int].action_set));
                return None;
            },
        }
        k += 1;
    }
    Some(sets)
}

impl Input {
    /// The profile that the runtime reports for `hand`.
    pub open spec fn profile_of(&self, hand: Hand) -> Option<Profile> {
        self.device_table()[crate::devices::controller_index(hand)].interaction_profile
    }

    /// Prepares a sync of the action sets that the host names, and tells
    /// the caller what to sync. The sync counts for the legacy controller
    /// state, and every custom binding forgets its stored result, so that
    /// the reads that follow the sync compute anew.
    ///
    /// Fails, changing nothing, when no set is named, when no manifest is
    /// loaded, or when one of the handles stands for no loaded set.
    pub fn update_action_state(&mut self, active_sets: &Vec<ActiveActionSet>) -> (r: Result<
        SyncRequest,
        InputError,
    >)
        requires
            old(self).wf(),
        ensures
            final(self).wf(),
            final(self).in_real_session() == old(self).in_real_session(),
            final(self).tracks_hands() == old(self).tracks_hands(),
            final(self).legacy_set() == old(self).legacy_set(),
            final(self).keeps_handles(old(self)),
            final(self).action_handles() == old(self).action_handles(),
            final(self).set_handles() == old(self).set_handles(),
            final(self).legacy_ready() == old(self).legacy_ready(),
            final(self).device_table() == old(self).device_table(),
            final(self).pending_events() == old(self).pending_events(),
            final(self).pending_haptics() == old(self).pending_haptics(),
            final(self).readings() == old(self).readings(),
            final(self).manifest_path() == old(self).manifest_path(),
            r matches Err(e) ==> e == (if active_sets@.len() == 0 {
                InputError::NoActiveActionSet
            } else if old(self).loaded().is_none() {
                InputError::InvalidParam
            } else {
                InputError::InvalidHandle
            }),
            r.is_err() <==> active_sets@.len() == 0 || old(self).loaded().is_none() || exists|
                k: int,
            |
                0 <= k < active_sets@.len() && !knows_set(
                    old(self).loaded().unwrap(),
                    (#[trigger] active_sets@[k]).action_set,
                ),
            r.is_err() ==> final(self).loaded() == old(self).loaded() && final(self).legacy()
                == old(self).legacy(),
            r matches Ok(request) ==> {
                &&& request.legacy == old(self).legacy_ready()
                &&& request.sets@.len() == active_sets@.len()
                &&& forall|k: int|
                    0 <= k < active_sets@.len() ==> runtime_set_of(
                        old(self).loaded().unwrap(),
                        active_sets@[k].action_set,
                        #[trigger] request.sets@[k],
                    )
                &&& final(self).loaded().is_some()
                &&& final(self).loaded().unwrap().is_unsynced_from(&old(self).loaded().unwrap())
                &&& final(self).legacy() == (LegacyState {
                    packet_num: LegacyState::next_packet(old(self).legacy().packet_num),
                    got_left_state: false,
                    got_right_state: false,
                })
            },
    {
        if active_sets.len() == 0 {
            return Err(InputError::NoActiveActionSet);
        }
        let mut loaded = match self.loaded_actions.take() {
            Some(l) => l,
            None => {
                return Err(InputError::InvalidParam);
            },
        };
        let sets = match sets_to_sync(&loaded, active_sets) {
            Some(s) => s,
            None => {
                self.loaded_actions = Some(loaded);
                return Err(InputError::InvalidHandle);
            },
        };
        let ghost before = loaded;
        loaded.unsync_all();
        proof {
            assert forall|i: int| 0 <= i < loaded.actions@.len()
                implies self.action_map@.contains_key(
                (#[trigger] loaded.actions@[i]).handle,
            ) && self.action_map@[loaded.actions@[i].handle] == loaded.actions@[i].path@ by {
                assert(before.actions@[i].handle == loaded.actions@[i].handle);
            }
        }
        self.loaded_actions = Some(loaded);
        self.legacy_state.on_action_sync();
        Ok(SyncRequest { sets, legacy: self.legacy_actions.is_some() })
    }

    /// Reads a boolean action for the input source that `restrict_to_device`
    /// names.
    ///
    /// The read fails with an invalid handle when no manifest is loaded or
    /// the handle stands for no loaded action, and with a wrong type when
    /// the action is not boolean. A value that names no input source
    /// reads as an action that is not active. Otherwise the state is
    /// `digital_state`: what the runtime reports for the action, merged
    /// with what its custom bindings report for the profile of each hand.
    /// The custom bindings keep their results until the next sync, and
    /// the pulses they ask for are kept for the caller.
    pub fn get_digital_action_data(&mut self, handle: u64, restrict_to_device: u64) -> (r: Result<
        InputDigitalActionData,
        InputError,
    >)
        requires
            old(self).wf(),
        ensures
            final(self).wf(),
            final(self).in_real_session() == old(self).in_real_session(),
            final(self).tracks_hands() == old(self).tracks_hands(),
            final(self).legacy_set() == old(self).legacy_set(),
            final(self).keeps_handles(old(self)),
            final(self).action_handles() == old(self).action_handles(),
            final(self).set_handles() == old(self).set_handles(),
            final(self).legacy_ready() == old(self).legacy_ready(),
            final(self).legacy() == old(self).legacy(),
            final(self).device_table() == old(self).device_table(),
            final(self).pending_events() == old(self).pending_events(),
            final(self).readings() == old(self).readings(),
            final(self).manifest_path() == old(self).manifest_path(),
            final(self).loaded().is_some() == old(self).loaded().is_some(),
            old(self).loaded().is_some() ==> final(self).loaded().unwrap().extends(
                &old(self).loaded().unwrap(),
            ),
            old(self).loaded().is_none() || !knows_action(old(self).loaded().unwrap(), handle)
                ==> r == Err::<InputDigitalActionData, InputError>(InputError::InvalidHandle),
            old(self).loaded().is_some() && knows_action(old(self).loaded().unwrap(), handle) ==> {
                let loaded = old(self).loaded().unwrap();
                let index = action_index(loaded, handle, 0);
                let path = old(self).subaction_path_of(restrict_to_device);
                &&& 0 <= index < loaded.actions@.len()
                &&& loaded.actions@[index].handle == canonical(handle)
                &&& path.is_none() ==> r == Ok::<InputDigitalActionData, InputError>(
                    InputDigitalActionData {
                        active: false,
                        active_origin: 0,
                        state: false,
                        changed: false,
                    },
                )
                &&& path.is_some() && loaded.actions@[index].kind != ActionKind::Bool ==> r
                    == Err::<
                    InputDigitalActionData,
                    InputError,
                >(InputError::WrongType)
                &&& path.is_some() && loaded.actions@[index].kind == ActionKind::Bool ==> r == Ok::<
                    InputDigitalActionData,
                    InputError,
                >(
                    {
                        let state = digital_state(
                            loaded,
                            index,
                            &old(self).readings(),
                            path.unwrap(),
                            old(self).profile_of(Hand::Left),
                            old(self).profile_of(Hand::Right),
                        );
                        InputDigitalActionData {
                            active: state.is_active,
                            active_origin: restrict_to_device,
                            state: state.current_state,
                            changed: state.changed_since_last_sync,
                        }
                    },
                )
            },
            r.is_err() ==> final(self).loaded() == old(self).loaded()
                && final(self).pending_haptics() == old(self).pending_haptics(),
            old(self).loaded().is_some() && knows_action(old(self).loaded().unwrap(), handle)
                && old(self).subaction_path_of(restrict_to_device).is_some() && r.is_ok() ==> {
                let loaded = old(self).loaded().unwrap();
                let index = action_index(loaded, handle, 0);
                let path = old(self).subaction_path_of(restrict_to_device).unwrap();
                let left = old(self).profile_of(Hand::Left);
                let right = old(self).profile_of(Hand::Right);
                &&& forall|profile: Profile| #[trigger]
                    final(self).loaded().unwrap().bindings_of(index, profile) == digital_bindings(
                        loaded,
                        index,
                        &old(self).readings(),
                        path,
                        left,
                        right,
                        profile,
                    )
                &&& final(self).pending_haptics() == old(self).pending_haptics() + digital_pulses(
                    loaded,
                    index,
                    &old(self).readings(),
                    path,
                    left,
                    right,
                )
                &&& forall|i: int|
                    0 <= i < loaded.actions@.len() && i != index
                        ==> #[trigger] final(self).loaded().unwrap().actions@[i]
                        == loaded.actions@[i]
                &&& final(self).loaded().unwrap().actions@[index].extra
                    == loaded.actions@[index].extra
                &&& final(self).loaded().unwrap().actions@[index].poses
                    == loaded.actions@[index].poses
                &&& final(self).loaded().unwrap().actions@[index].last_value
                    == loaded.actions@[index].last_value
                &&& final(self).loaded().unwrap().runtime_sets@ == loaded.runtime_sets@
                &&& final(self).loaded().unwrap().runtime_actions@ == loaded.runtime_actions@
                &&& final(self).loaded().unwrap().suggestions@ == loaded.suggestions@
                &&& final(self).loaded().unwrap().keyed@ == loaded.keyed@
            },
            old(self).loaded().is_some() && knows_action(old(self).loaded().unwrap(), handle)
                && old(self).subaction_path_of(restrict_to_device).is_none()
                    ==> final(self).loaded() == old(self).loaded() && final(self).pending_haptics()
                    == old(self).pending_haptics(),
    {
        let mut loaded = match self.loaded_actions.take() {
            Some(l) => l,
            None => {
                return Err(InputError::InvalidHandle);
            },
        };
        let index = match loaded.try_get_action(handle) {
            Some(i) => i,
            None => {
                self.loaded_actions = Some(loaded);
                return Err(InputError::InvalidHandle);
            },
        };
        proof {
            lemma_action_index(loaded, handle, index as int, 0);
        }
        let restrict = match self.subaction_path_from_handle(restrict_to_device) {
            Some(p) => p,
            None => {
                self.loaded_actions = Some(loaded);
                proof {
                    LoadedActions::lemma_extends_refl(&loaded);
                }
                return Ok(
                    InputDigitalActionData {
                        active: false,
                        active_origin: 0,
                        state: false,
                        changed: false,
                    },
                );
            },
        };
        let action = match (loaded.actions[index].kind, loaded.actions[index].action) {
            (ActionKind::Bool, Some(a)) => a,
            _ => {
                self.loaded_actions = Some(loaded);
                return Err(InputError::WrongType);
            },
        };
        let left = self.devices.get_controller(Hand::Left).interaction_profile;
        let right = self.devices.get_controller(Hand::Right).interaction_profile;
        let ghost before = loaded;
        let direct = self.snapshot.bool_state(action, restrict);
        let state = loaded.read_digital(
            index,
            &self.snapshot,
            restrict,
            left,
            right,
            direct,
            &mut self.haptics,
        );
        proof {
            assert forall|i: int| 0 <= i < loaded.actions@.len()
                implies self.action_map@.contains_key(
                (#[trigger] loaded.actions@[i]).handle,
            ) && self.action_map@[loaded.actions@[i].handle] == loaded.actions@[i].path@ by {
                assert(before.actions@[i].handle == loaded.actions@[i].handle);
            }
        }
        self.loaded_actions = Some(loaded);
        Ok(
            InputDigitalActionData {
                active: state.is_active,
                active_origin: restrict_to_device,
                state: state.current_state,
                changed: state.changed_since_last_sync,
            },
        )
    }

    /// Reads an analog action for the input source that
    /// `restrict_to_device` names.
    ///
    /// The read fails with an invalid handle when no manifest is loaded or
    /// the handle stands for no loaded action, and with a wrong type when
    /// the action is neither a float nor a two-axis action. A value that
    /// names no input source reads as an action that is not active.
    /// Otherwise the read reports what the runtime reports for the
    /// action, and how far the value is from the value of the last read,
    /// which this read replaces.
    pub fn get_analog_action_data(&mut self, handle: u64, restrict_to_device: u64) -> (r: Result<
        InputAnalogActionData,
        InputError,
    >)
        requires
            old(self).wf(),
        ensures
            final(self).wf(),
            final(self).in_real_session() == old(self).in_real_session(),
            final(self).tracks_hands() == old(self).tracks_hands(),
            final(self).legacy_set() == old(self).legacy_set(),
            final(self).keeps_handles(old(self)),
            final(self).action_handles() == old(self).action_handles(),
            final(self).set_handles() == old(self).set_handles(),
            final(self).legacy_ready() == old(self).legacy_ready(),
            final(self).legacy() == old(self).legacy(),
            final(self).device_table() == old(self).device_table(),
            final(self).pending_events() == old(self).pending_events(),
            final(self).pending_haptics() == old(self).pending_haptics(),
            final(self).readings() == old(self).readings(),
            final(self).manifest_path() == old(self).manifest_path(),
            final(self).loaded().is_some() == old(self).loaded().is_some(),
            old(self).loaded().is_some() ==> final(self).loaded().unwrap().extends(
                &old(self).loaded().unwrap(),
            ),
            old(self).loaded().is_none() || !knows_action(old(self).loaded().unwrap(), handle)
                ==> r == Err::<InputAnalogActionData, InputError>(InputError::InvalidHandle),
            old(self).loaded().is_some() && knows_action(old(self).loaded().unwrap(), handle) ==> {
                let loaded = old(self).loaded().unwrap();
                let index = action_index(loaded, handle, 0);
                let path = old(self).subaction_path_of(restrict_to_device);
                let a = loaded.actions@[index];
                let zero = Fixed { raw: 0 };
                &&& 0 <= index < loaded.actions@.len()
                &&& a.handle == canonical(handle)
                &&& path.is_none() ==> r == Ok::<InputAnalogActionData, InputError>(
                    InputAnalogActionData {
                        active: false,
                        active_origin: 0,
                        x: zero,
                        y: zero,
                        z: zero,
                        delta_x: zero,
                        delta_y: zero,
                        delta_z: zero,
                    },
                )
                &&& path.is_some() && a.kind != ActionKind::Vector1 && a.kind
                    != ActionKind::Vector2 ==> r == Err::<InputAnalogActionData, InputError>(
                    InputError::WrongType,
                )
                &&& path.is_some() && a.kind == ActionKind::Vector1 ==> {
                    let state = old(self).readings().float_of(a.action.unwrap(), path.unwrap());
                    &&& r.is_ok()
                    &&& r.unwrap().active == state.is_active
                    &&& r.unwrap().active_origin == 0
                    &&& r.unwrap().x == state.current_state
                    &&& r.unwrap().y == zero
                    &&& r.unwrap().z == zero
                    &&& r.unwrap().delta_x.units() == crate::fixed::saturate(
                        state.current_state.units() - a.last_value.0.units(),
                    )
                    &&& r.unwrap().delta_y == zero
                    &&& r.unwrap().delta_z == zero
                    &&& final(self).loaded().unwrap().actions@[index].last_value == (
                        state.current_state,
                        a.last_value.1,
                    )
                }
                &&& path.is_some() && a.kind == ActionKind::Vector2 ==> {
                    let state = old(self).readings().vector2_of(a.action.unwrap(), path.unwrap());
                    &&& r.is_ok()
                    &&& r.unwrap().active == state.is_active
                    &&& r.unwrap().active_origin == 0
                    &&& r.unwrap().x == state.current_state.x
                    &&& r.unwrap().y == state.current_state.y
                    &&& r.unwrap().z == zero
                    &&& r.unwrap().delta_x.units() == crate::fixed::saturate(
                        state.current_state.x.units() - a.last_value.0.units(),
                    )
                    &&& r.unwrap().delta_y.units() == crate::fixed::saturate(
                        state.current_state.y.units() - a.last_value.1.units(),
                    )
                    &&& r.unwrap().delta_z == zero
                    &&& final(self).loaded().unwrap().actions@[index].last_value == (
                        state.current_state.x,
                        state.current_state.y,
                    )
                }
            },
            r.is_err() ==> final(self).loaded() == old(self).loaded(),
    {
        let zero = Fixed { raw: 0 };
        let mut loaded = match self.loaded_actions.take() {
            Some(l) => l,
            None => {
                return Err(InputError::InvalidHandle);
            },
        };
        let index = match loaded.try_get_action(handle) {
            Some(i) => i,
            None => {
                self.loaded_actions = Some(loaded);
                return Err(InputError::InvalidHandle);
            },
        };
        proof {
            lemma_action_index(loaded, handle, index as int, 0);
            LoadedActions::lemma_extends_refl(&loaded);
        }
        let restrict = match self.subaction_path_from_handle(restrict_to_device) {
            Some(p) => p,
            None => {
                self.loaded_actions = Some(loaded);
                return Ok(
                    InputAnalogActionData {
                        active: false,
                        active_origin: 0,
                        x: zero,
                        y: zero,
                        z: zero,
                        delta_x: zero,
                        delta_y: zero,
                        delta_z: zero,
                    },
                );
            },
        };
        let ghost before = loaded;
        let last = loaded.actions[index].last_value;
        let result = match (loaded.actions[index].kind, loaded.actions[index].action) {
            (ActionKind::Vector1, Some(a)) => {
                let state = self.snapshot.float_state(a, restrict);
                loaded.actions[index].last_value = (state.current_state, last.1);
                InputAnalogActionData {
                    active: state.is_active,
                    active_origin: 0,
                    x: state.current_state,
                    y: zero,
                    z: zero,
                    delta_x: state.current_state.minus(last.0),
                    delta_y: zero,
                    delta_z: zero,
                }
            },
            (ActionKind::Vector2, Some(a)) => {
                let state = self.snapshot.vector2_state(a, restrict);
                loaded.actions[index].last_value = (state.current_state.x, state.current_state.y);
                InputAnalogActionData {
                    active: state.is_active,
                    active_origin: 0,
                    x: state.current_state.x,
                    y: state.current_state.y,
                    z: zero,
                    delta_x: state.current_state.x.minus(last.0),
                    delta_y: state.current_state.y.minus(last.1),
                    delta_z: zero,
                }
            },
            _ => {
                self.loaded_actions = Some(loaded);
                return Err(InputError::WrongType);
            },
        };
        proof {
            assert forall|i: int| 0 <= i < loaded.actions@.len()
                implies self.action_map@.contains_key(
                (#[trigger] loaded.actions@[i]).handle,
            ) && self.action_map@[loaded.actions@[i].handle] == loaded.actions@[i].path@ by {
                assert(before.actions@[i].handle == loaded.actions@[i].handle);
            }
        }
        self.loaded_actions = Some(loaded);
        Ok(result)
    }
}

/// The state of a pose action, as the host reads it. The pose is the
/// cached pose of the controller, or the space that the caller has to
/// locate and report with `fill_pose`.
#[derive(Clone, Copy, Debug, PartialEq, Eq)]
pub struct InputPoseActionData {
    pub active: bool,
    pub active_origin: u64,
    pub pose: Option<PoseLookup>,
}

/// The state of a skeleton action, as the host reads it.
#[derive(Clone, Copy, Debug, PartialEq, Eq)]
pub struct InputSkeletalActionData {
    pub active: bool,
    pub active_origin: u64,
}

/// How the bones of a hand are known.
#[derive(Clone, Copy, Debug, PartialEq, Eq, Structural)]
pub enum SkeletalTrackingLevel {
    /// The bones are estimated from the buttons of a controller.
    Estimated,
    /// The controller senses the fingers.
    Partial,
    /// The runtime tracks the hand itself.
    Full,
}

/// The number of bones of a hand skeleton.
pub const HAND_SKELETON_BONE_COUNT: u32 = 31;

/// The raw value of the splay reported for every finger.
pub const FINGER_SPLAY: i64 = 858993472;

/// The pose bindings that an action has for the profile of a hand.
pub open spec fn bound_for(loaded: LoadedActions, index: int, profile: Option<Profile>) -> Option<
    BoundPose,
> {
    match profile {
        Some(p) => loaded.pose_of(index, p),
        None => None,
    }
}

/// The pose bindings that a read of a pose action goes by: those for the
/// profile of the hand that the read is restricted to, or else those for
/// the profile of the left hand, or else those for the profile of the
/// right hand.
pub open spec fn chosen_bound(
    loaded: LoadedActions,
    index: int,
    restrict: Option<Hand>,
    left: Option<Profile>,
    right: Option<Profile>,
) -> Option<BoundPose> {
    let own = match restrict {
        Some(Hand::Left) => bound_for(loaded, index, left),
        Some(Hand::Right) => bound_for(loaded, index, right),
        None => None,
    };
    if own.is_some() {
        own
    } else if bound_for(loaded, index, left).is_some() {
        bound_for(loaded, index, left)
    } else {
        bound_for(loaded, index, right)
    }
}

/// The hand whose pose a read of a pose action reports: the hand that
/// the read is restricted to if a pose is bound for it, and without a
/// restriction the left hand if a pose is bound for it, else the right
/// hand if a pose is bound for it.
pub open spec fn pose_hand(bound: BoundPose, restrict: Option<Hand>) -> Option<Hand> {
    match restrict {
        Some(Hand::Left) => if bound.left.is_some() {
            Some(Hand::Left)
        } else {
            None
        },
        Some(Hand::Right) => if bound.right.is_some() {
            Some(Hand::Right)
        } else {
            None
        },
        None => if bound.left.is_some() {
            Some(Hand::Left)
        } else if bound.right.is_some() {
            Some(Hand::Right)
        } else {
            None
        },
    }
}

/// The runtime action of the first haptic action from `first` on.
pub open spec fn first_haptic(loaded: LoadedActions, first: int) -> Option<u32>
    decreases loaded.actions@.len() - first,
{
    if first < 0 || first >= loaded.actions@.len() {
        None
    } else if loaded.actions@[first].kind == ActionKind::Haptic
        && loaded.actions@[first].action.is_some() {
        loaded.actions@[first].action
    } else {
        first_haptic(loaded, first + 1)
    }
}

/// Finds the runtime action of the first haptic action.
pub fn find_first_haptic(loaded: &LoadedActions) -> (r: Option<u32>)
    ensures
        r == first_haptic(*loaded, 0),
{
    let mut i: usize = 0;
    while i < loaded.actions.len()
        invariant
            i <= loaded.actions.len(),
            first_haptic(*loaded, 0) == first_haptic(*loaded, i as int),
        decreases loaded.actions.len() - i,
    {
        match (loaded.actions[i].kind, loaded.actions[i].action) {
            (ActionKind::Haptic, Some(a)) => {
                return Some(a);
            },
            _ => {},
        }
        i += 1;
    }
    None
}

/// The nanoseconds of a duration in seconds, rounded towards zero.
pub open spec fn nanos_of(seconds: Fixed) -> int {
    if seconds.raw >= 0 {
        (seconds.raw as int * 1_000_000_000) / (crate::fixed::ONE as int)
    } else {
        -((-(seconds.raw as int) * 1_000_000_000) / (crate::fixed::ONE as int))
    }
}

/// Converts a duration in seconds to nanoseconds.
pub fn duration_nanos(seconds: Fixed) -> (r: i64)
    ensures
        r == nanos_of(seconds),
{
    if seconds.raw >= 0 {
        let wide: i128 = (seconds.raw as i128) * 1_000_000_000;
        (wide / (crate::fixed::ONE as i128)) as i64
    } else {
        let wide: i128 = (-(seconds.raw as i128)) * 1_000_000_000;
        -((wide / (crate::fixed::ONE as i128)) as i64)
    }
}

/// `a`, held to the range from zero to one.
pub open spec fn clamped_amplitude(a: Fixed) -> Fixed {
    if a.raw < 0 {
        Fixed { raw: 0 }
    } else if a.raw > crate::fixed::ONE {
        Fixed { raw: crate::fixed::ONE }
    } else {
        a
    }
}

impl Input {
    /// What a read of a pose action reports for the input source that
    /// `restrict_to_device` names.
    ///
    /// The read fails with an invalid handle when no manifest is loaded.
    /// A value that names no input source reads as an action that is not
    /// active. Otherwise the read fails with an invalid handle when the
    /// handle stands for no loaded action, with a wrong type when the
    /// action is neither a pose nor a skeleton, and with an invalid device
    /// when a skeleton is read for one hand only.
    ///
    /// A pose action reports the pose of the hand that `pose_hand` names
    /// among the poses that `chosen_bound` names, under the handle of the
    /// restriction or else of that hand; without such a hand it is not
    /// active. A skeleton action reports the pose of its hand.
    pub open spec fn pose_reading(
        &self,
        handle: u64,
        origin: TrackingUniverseOrigin,
        restrict_to_device: u64,
    ) -> Result<InputPoseActionData, InputError> {
        let none = InputPoseActionData { active: false, active_origin: 0, pose: None };
        if self.loaded().is_none() {
            Err(InputError::InvalidHandle)
        } else if self.subaction_path_of(restrict_to_device).is_none() {
            Ok(none)
        } else if !knows_action(self.loaded().unwrap(), handle) {
            Err(InputError::InvalidHandle)
        } else {
            let loaded = self.loaded().unwrap();
            let index = action_index(loaded, handle, 0);
            let restrict = self.subaction_path_of(restrict_to_device).unwrap();
            let a = loaded.actions@[index];
            match a.kind {
                ActionKind::Pose => {
                    let bound = chosen_bound(
                        loaded,
                        index,
                        restrict,
                        self.profile_of(Hand::Left),
                        self.profile_of(Hand::Right),
                    );
                    if bound.is_none() || pose_hand(bound.unwrap(), restrict).is_none() {
                        Ok(none)
                    } else {
                        let hand = pose_hand(bound.unwrap(), restrict).unwrap();
                        Ok(
                            InputPoseActionData {
                                active: true,
                                active_origin: if restrict.is_some() {
                                    restrict_to_device
                                } else {
                                    match hand {
                                        Hand::Left => self.left_hand(),
                                        Hand::Right => self.right_hand(),
                                    }
                                },
                                pose: self.get_devices_spec().lookup(
                                    controller_index(hand) as u32,
                                    origin,
                                ),
                            },
                        )
                    }
                },
                ActionKind::Skeleton => if restrict.is_some() || a.hand.is_none() {
                    Err(InputError::InvalidDevice)
                } else {
                    Ok(
                        InputPoseActionData {
                            active: true,
                            active_origin: 0,
                            pose: self.get_devices_spec().lookup(
                                controller_index(a.hand.unwrap()) as u32,
                                origin,
                            ),
                        },
                    )
                },
                _ => Err(InputError::WrongType),
            }
        }
    }

    /// Reads a pose action for the input source that `restrict_to_device`
    /// names: what `pose_reading` says, with the pose read from the cache
    /// or the space to locate.
    pub fn get_pose_action_data_for_next_frame(
        &self,
        handle: u64,
        origin: TrackingUniverseOrigin,
        restrict_to_device: u64,
    ) -> (r: Result<InputPoseActionData, InputError>)
        requires
            self.wf(),
        ensures
            r == self.pose_reading(handle, origin, restrict_to_device),
    {
        let none = InputPoseActionData { active: false, active_origin: 0, pose: None };
        let loaded = match &self.loaded_actions {
            Some(l) => l,
            None => {
                return Err(InputError::InvalidHandle);
            },
        };
        let restrict = match self.subaction_path_from_handle(restrict_to_device) {
            Some(p) => p,
            None => {
                return Ok(none);
            },
        };
        let index = match loaded.try_get_action(handle) {
            Some(i) => i,
            None => {
                return Err(InputError::InvalidHandle);
            },
        };
        proof {
            lemma_action_index(*loaded, handle, index as int, 0);
        }
        match loaded.actions[index].kind {
            ActionKind::Pose => {},
            ActionKind::Skeleton => {
                if restrict.is_some() {
                    return Err(InputError::InvalidDevice);
                }
                return match loaded.actions[index].hand {
                    Some(hand) => Ok(
                        InputPoseActionData {
                            active: true,
                            active_origin: 0,
                            pose: self.devices.pose_lookup(
                                match hand {
                                    Hand::Left => 1,
                                    Hand::Right => 2,
                                },
                                origin,
                            ),
                        },
                    ),
                    None => Err(InputError::InvalidDevice),
                };
            },
            _ => {
                return Err(InputError::WrongType);
            },
        }
        let left = self.devices.get_controller(Hand::Left).interaction_profile;
        let right = self.devices.get_controller(Hand::Right).interaction_profile;
        let bound_left = match left {
            Some(p) => match loaded.find_pose(index, p) {
                Some(k) => Some(loaded.actions[index].poses[k].pose),
                None => None,
            },
            None => None,
        };
        let bound_right = match right {
            Some(p) => match loaded.find_pose(index, p) {
                Some(k) => Some(loaded.actions[index].poses[k].pose),
                None => None,
            },
            None => None,
        };
        let own = match restrict {
            Some(Hand::Left) => bound_left,
            Some(Hand::Right) => bound_right,
            None => None,
        };
        let bound = if own.is_some() {
            own
        } else if bound_left.is_some() {
            bound_left
        } else {
            bound_right
        };
        let bound = match bound {
            Some(b) => b,
            None => {
                return Ok(none);
            },
        };
        let hand = match restrict {
            Some(Hand::Left) => if bound.left.is_some() {
                Some(Hand::Left)
            } else {
                None
            },
            Some(Hand::Right) => if bound.right.is_some() {
                Some(Hand::Right)
            } else {
                None
            },
            None => if bound.left.is_some() {
                Some(Hand::Left)
            } else if bound.right.is_some() {
                Some(Hand::Right)
            } else {
                None
            },
        };
        let hand = match hand {
            Some(h) => h,
            None => {
                return Ok(none);
            },
        };
        let active_origin: u64 = if restrict.is_some() {
            restrict_to_device
        } else {
            self.hand_handle(hand)
        };
        Ok(
            InputPoseActionData {
                active: true,
                active_origin,
                pose: self.devices.pose_lookup(
                    match hand {
                        Hand::Left => 1,
                        Hand::Right => 2,
                    },
                    origin,
                ),
            },
        )
    }

    /// The table of tracked devices, for contracts.
    pub closed spec fn get_devices_spec(&self) -> TrackedDeviceList {
        self.devices
    }

    /// Reads a pose action some time from now. The time is not used: the
    /// read reports the pose of the next frame.
    pub fn get_pose_action_data_relative_to_now(
        &self,
        handle: u64,
        origin: TrackingUniverseOrigin,
        seconds_from_now: Fixed,
        restrict_to_device: u64,
    ) -> (r: Result<InputPoseActionData, InputError>)
        requires
            self.wf(),
        ensures
            r == self.pose_reading(handle, origin, restrict_to_device),
    {
        self.get_pose_action_data_for_next_frame(handle, origin, restrict_to_device)
    }

    /// The kind of the loaded action that `handle` stands for, or the
    /// error of a read that does not find it.
    pub open spec fn kind_of(&self, handle: u64) -> Result<ActionKind, InputError> {
        if self.loaded().is_none() || !knows_action(self.loaded().unwrap(), handle) {
            Err(InputError::InvalidHandle)
        } else {
            Ok(
                self.loaded().unwrap().actions@[action_index(
                    self.loaded().unwrap(),
                    handle,
                    0,
                )].kind,
            )
        }
    }

    /// The hand of the skeleton action that `handle` stands for, or the
    /// error of a read that finds no skeleton action.
    pub open spec fn skeleton_hand_of(&self, handle: u64) -> Result<Hand, InputError> {
        match self.kind_of(handle) {
            Err(e) => Err(e),
            Ok(kind) => {
                let a = self.loaded().unwrap().actions@[action_index(
                    self.loaded().unwrap(),
                    handle,
                    0,
                )];
                if kind == ActionKind::Skeleton && a.hand.is_some() {
                    Ok(a.hand.unwrap())
                } else {
                    Err(InputError::WrongType)
                }
            },
        }
    }

    /// Finds the hand of the skeleton action that `handle` stands for.
    pub fn skeleton_hand(&self, handle: u64) -> (r: Result<Hand, InputError>)
        requires
            self.wf(),
        ensures
            r == self.skeleton_hand_of(handle),
    {
        let loaded = match &self.loaded_actions {
            Some(l) => l,
            None => {
                return Err(InputError::InvalidHandle);
            },
        };
        let index = match loaded.try_get_action(handle) {
            Some(i) => i,
            None => {
                return Err(InputError::InvalidHandle);
            },
        };
        proof {
            lemma_action_index(*loaded, handle, index as int, 0);
        }
        match (loaded.actions[index].kind, loaded.actions[index].hand) {
            (ActionKind::Skeleton, Some(hand)) => Ok(hand),
            _ => Err(InputError::WrongType),
        }
    }

    /// Reads a skeleton action: it is active while the grip pose of the
    /// legacy set is, and its origin is the handle of its hand.
    pub fn get_skeletal_action_data(&self, handle: u64) -> (r: Result<
        InputSkeletalActionData,
        InputError,
    >)
        requires
            self.wf(),
        ensures
            r == (match self.skeleton_hand_of(handle) {
                Err(e) => Err::<InputSkeletalActionData, InputError>(e),
                Ok(hand) => Ok::<InputSkeletalActionData, InputError>(
                    InputSkeletalActionData {
                        active: self.readings().pose_active_of(legacy_actions().grip_pose, None),
                        active_origin: match hand {
                            Hand::Left => self.left_hand(),
                            Hand::Right => self.right_hand(),
                        },
                    },
                ),
            }),
    {
        match self.skeleton_hand(handle) {
            Err(e) => Err(e),
            Ok(hand) => Ok(
                InputSkeletalActionData {
                    active: self.snapshot.pose_active(
                        crate::legacy::LEGACY_FIRST_ACTION + 10,
                        None,
                    ),
                    active_origin: self.hand_handle(hand),
                },
            ),
        }
    }

    /// The number of bones that a skeleton action reports.
    pub fn get_bone_count(&self, handle: u64) -> (r: Result<u32, InputError>)
        requires
            self.wf(),
        ensures
            r == (match self.skeleton_hand_of(handle) {
                Err(e) => Err::<u32, InputError>(e),
                Ok(_) => Ok::<u32, InputError>(HAND_SKELETON_BONE_COUNT),
            }),
    {
        match self.skeleton_hand(handle) {
            Err(e) => Err(e),
            Ok(_) => Ok(HAND_SKELETON_BONE_COUNT),
        }
    }

    /// How the bones of a skeleton action are known: fully while the
    /// runtime tracks the hand itself; else partially with a controller
    /// of the Knuckles kind, and by estimate otherwise.
    pub fn get_skeletal_tracking_level(&self, handle: u64) -> (r: Result<
        SkeletalTrackingLevel,
        InputError,
    >)
        requires
            self.wf(),
        ensures
            r == (match self.skeleton_hand_of(handle) {
                Err(e) => Err::<SkeletalTrackingLevel, InputError>(e),
                Ok(hand) => Ok::<SkeletalTrackingLevel, InputError>(
                    if self.tracks_hands() {
                        SkeletalTrackingLevel::Full
                    } else if self.profile_of(hand).is_some() && self.profile_of(
                        hand,
                    ).unwrap().device_properties().openvr_controller_type@ == "knuckles"@ {
                        SkeletalTrackingLevel::Partial
                    } else {
                        SkeletalTrackingLevel::Estimated
                    },
                ),
            }),
    {
        match self.skeleton_hand(handle) {
            Err(e) => Err(e),
            Ok(hand) => {
                let knuckles = match self.devices.get_controller(hand).interaction_profile {
                    Some(p) => str_eq(p.properties().openvr_controller_type, "knuckles"),
                    None => false,
                };
                if self.hand_tracking {
                    Ok(SkeletalTrackingLevel::Full)
                } else if knuckles {
                    Ok(SkeletalTrackingLevel::Partial)
                } else {
                    Ok(SkeletalTrackingLevel::Estimated)
                }
            },
        }
    }

    /// Asks for a vibration of a haptic action.
    ///
    /// The call fails with an invalid handle when no manifest is loaded or
    /// the handle stands for no loaded action, and with a wrong type when
    /// the action is not a haptic action. A value that names no input
    /// source asks for nothing. Otherwise the vibration is asked of the
    /// runtime action behind the action, for the hand that is named, with
    /// the amplitude held between zero and one, the frequency as given,
    /// and the duration in nanoseconds.
    pub fn trigger_haptic_vibration_action(
        &self,
        handle: u64,
        duration_seconds: Fixed,
        frequency: Fixed,
        amplitude: Fixed,
        restrict_to_device: u64,
    ) -> (r: Result<Option<HapticRequest>, InputError>)
        requires
            self.wf(),
        ensures
            r == (match self.kind_of(handle) {
                Err(e) => Err::<Option<HapticRequest>, InputError>(e),
                Ok(kind) => if self.subaction_path_of(restrict_to_device).is_none() {
                    Ok::<Option<HapticRequest>, InputError>(None)
                } else if kind != ActionKind::Haptic {
                    Err::<Option<HapticRequest>, InputError>(InputError::WrongType)
                } else {
                    Ok::<Option<HapticRequest>, InputError>(
                        Some(
                            HapticRequest {
                                action: self.loaded().unwrap().actions@[action_index(
                                    self.loaded().unwrap(),
                                    handle,
                                    0,
                                )].action.unwrap(),
                                hand: self.subaction_path_of(restrict_to_device).unwrap(),
                                duration_nanos: Some(nanos_of(duration_seconds) as i64),
                                amplitude: clamped_amplitude(amplitude),
                                frequency: Some(frequency),
                            },
                        ),
                    )
                },
            }),
    {
        let loaded = match &self.loaded_actions {
            Some(l) => l,
            None => {
                return Err(InputError::InvalidHandle);
            },
        };
        let index = match loaded.try_get_action(handle) {
            Some(i) => i,
            None => {
                return Err(InputError::InvalidHandle);
            },
        };
        proof {
            lemma_action_index(*loaded, handle, index as int, 0);
        }
        let restrict = match self.subaction_path_from_handle(restrict_to_device) {
            Some(p) => p,
            None => {
                return Ok(None);
            },
        };
        let action = match (loaded.actions[index].kind, loaded.actions[index].action) {
            (ActionKind::Haptic, Some(a)) => a,
            _ => {
                return Err(InputError::WrongType);
            },
        };
        let clamped = if amplitude.raw < 0 {
            Fixed { raw: 0 }
        } else if amplitude.raw > crate::fixed::ONE {
            Fixed { raw: crate::fixed::ONE }
        } else {
            amplitude
        };
        Ok(
            Some(
                HapticRequest {
                    action,
                    hand: restrict,
                    duration_nanos: Some(duration_nanos(duration_seconds)),
                    amplitude: clamped,
                    frequency: Some(frequency),
                },
            ),
        )
    }

    /// True when the device at `device_index` has a legacy controller
    /// state: no manifest is loaded, the legacy set exists, and the device
    /// is a controller.
    pub open spec fn reads_legacy(&self, device_index: u32) -> bool {
        &&& self.loaded().is_none()
        &&& self.legacy_ready()
        &&& device_index < self.device_table().len()
        &&& self.device_table()[device_index as int].device_type.hand().is_some()
    }

    /// The vibration that a legacy pulse on the device at `device_index`
    /// asks for.
    pub open spec fn legacy_haptic_of(&self, device_index: u32, duration_us: u16) -> Option<
        HapticRequest,
    > {
        if device_index >= self.device_table().len()
            || self.device_table()[device_index as int].device_type.hand().is_none() {
            None
        } else {
            let hand = self.device_table()[device_index as int].device_type.hand().unwrap();
            if self.loaded().is_some() {
                match first_haptic(self.loaded().unwrap(), 0) {
                    Some(action) => Some(legacy_pulse(action, hand, duration_us)),
                    None => None,
                }
            } else if self.legacy_ready() {
                Some(legacy_pulse(legacy_actions().haptic, hand, duration_us))
            } else {
                None
            }
        }
    }

    /// Reads the legacy controller state of the device at `device_index`.
    ///
    /// Nothing is read, and nothing changes, while a manifest is loaded,
    /// before the legacy set exists, and for a device that is no
    /// controller. Otherwise the state is composed from the snapshot and
    /// carries the packet number of the last sync; the first read of a
    /// hand after a sync also appends the button events of that hand.
    pub fn get_legacy_controller_state(&mut self, device_index: u32) -> (r: Option<
        VRControllerState,
    >)
        requires
            old(self).wf(),
        ensures
            final(self).wf(),
            final(self).in_real_session() == old(self).in_real_session(),
            final(self).tracks_hands() == old(self).tracks_hands(),
            final(self).legacy_set() == old(self).legacy_set(),
            final(self).keeps_handles(old(self)),
            final(self).action_handles() == old(self).action_handles(),
            final(self).set_handles() == old(self).set_handles(),
            final(self).loaded() == old(self).loaded(),
            final(self).legacy_ready() == old(self).legacy_ready(),
            final(self).device_table() == old(self).device_table(),
            final(self).pending_haptics() == old(self).pending_haptics(),
            final(self).readings() == old(self).readings(),
            final(self).manifest_path() == old(self).manifest_path(),
            r.is_some() <==> old(self).reads_legacy(device_index),
            r.is_none() ==> final(self).legacy() == old(self).legacy()
                && final(self).pending_events() == old(self).pending_events(),
            r matches Some(state) ==> {
                let hand = old(self).device_table()[device_index as int].device_type.hand().unwrap();
                let snapshot = old(self).readings();
                let actions = legacy_actions();
                &&& state.packet_num == old(self).legacy().packet_num
                &&& state.button_pressed == crate::legacy::pressed_mask(actions, &snapshot, hand)
                &&& state.button_touched == crate::legacy::touched_mask(actions, &snapshot, hand)
                &&& state.axis@[0] == (crate::legacy::ControllerAxis {
                    x: snapshot.vector2_of(actions.main_xy, Some(hand)).current_state.x,
                    y: snapshot.vector2_of(actions.main_xy, Some(hand)).current_state.y,
                })
                &&& state.axis@[1] == (crate::legacy::ControllerAxis {
                    x: snapshot.float_of(actions.trigger, Some(hand)).current_state,
                    y: Fixed { raw: 0 },
                })
                &&& state.axis@[2] == (crate::legacy::ControllerAxis {
                    x: snapshot.float_of(actions.squeeze, Some(hand)).current_state,
                    y: Fixed { raw: 0 },
                })
                &&& state.axis@[3] == (crate::legacy::ControllerAxis {
                    x: Fixed { raw: 0 },
                    y: Fixed { raw: 0 },
                })
                &&& state.axis@[4] == (crate::legacy::ControllerAxis {
                    x: Fixed { raw: 0 },
                    y: Fixed { raw: 0 },
                })
                &&& final(self).legacy().packet_num == old(self).legacy().packet_num
                &&& final(self).legacy().got_state(hand)
                &&& final(self).legacy().got_state(match hand {
                    Hand::Left => Hand::Right,
                    Hand::Right => Hand::Left,
                }) == old(self).legacy().got_state(match hand {
                    Hand::Left => Hand::Right,
                    Hand::Right => Hand::Left,
                })
                &&& final(self).pending_events() == (if old(self).legacy().got_state(hand) {
                    old(self).pending_events()
                } else {
                    old(self).pending_events() + legacy_events(
                        actions,
                        &snapshot,
                        hand,
                        device_index,
                    )
                })
            },
    {
        if self.loaded_actions.is_some() {
            return None;
        }
        let actions = match &self.legacy_actions {
            Some(l) => l.actions,
            None => {
                return None;
            },
        };
        let hand = match self.devices.device_index_to_hand(device_index) {
            Some(h) => h,
            None => {
                return None;
            },
        };
        let packet_num: u32 = self.legacy_state.packet_num;
        let first = self.legacy_state.first_read(hand);
        if first {
            crate::legacy::push_legacy_events(
                &actions,
                &self.snapshot,
                hand,
                device_index,
                &mut self.events,
            );
        }
        Some(crate::legacy::read_controller_state(&actions, &self.snapshot, hand, packet_num))
    }

    /// Asks for the vibration of a legacy haptic pulse on the device at
    /// `device_index`.
    ///
    /// Nothing is asked for a device that is no controller. While a
    /// manifest is loaded, the pulse goes to the first haptic action of
    /// the manifest, if it has one; otherwise it goes to the haptic action
    /// of the legacy set, if that set exists.
    pub fn legacy_haptic(&self, device_index: u32, axis_id: u32, duration_us: u16) -> (r: Option<
        HapticRequest,
    >)
        requires
            self.wf(),
        ensures
            r == self.legacy_haptic_of(device_index, duration_us),
    {
        let hand = match self.devices.device_index_to_hand(device_index) {
            Some(h) => h,
            None => {
                return None;
            },
        };
        match &self.loaded_actions {
            Some(loaded) => {
                return match find_first_haptic(loaded) {
                    Some(action) => Some(
                        crate::legacy::legacy_haptic_request(action, hand, duration_us),
                    ),
                    None => None,
                };
            },
            None => {},
        }
        match &self.legacy_actions {
            Some(legacy) => Some(
                crate::legacy::legacy_haptic_request(legacy.actions.haptic, hand, duration_us),
            ),
            None => None,
        }
    }

    /// Takes the event that has waited longest, if any, together with
    /// what a read of the pose of its device finds for `origin`.
    pub fn poll_next_event_with_pose(&mut self, origin: TrackingUniverseOrigin) -> (r: Option<
        (InputEvent, Option<PoseLookup>),
    >)
        requires
            old(self).wf(),
        ensures
            final(self).wf(),
            final(self).in_real_session() == old(self).in_real_session(),
            final(self).tracks_hands() == old(self).tracks_hands(),
            final(self).manifest_path() == old(self).manifest_path(),
            final(self).legacy_set() == old(self).legacy_set(),
            final(self).keeps_handles(old(self)),
            final(self).action_handles() == old(self).action_handles(),
            final(self).set_handles() == old(self).set_handles(),
            final(self).loaded() == old(self).loaded(),
            final(self).legacy_ready() == old(self).legacy_ready(),
            final(self).legacy() == old(self).legacy(),
            final(self).device_table() == old(self).device_table(),
            final(self).pending_haptics() == old(self).pending_haptics(),
            final(self).readings() == old(self).readings(),
            old(self).pending_events().len() == 0 ==> r.is_none() && final(self).pending_events()
                == old(self).pending_events(),
            old(self).pending_events().len() > 0 ==> r == Some(
                (
                    old(self).pending_events()[0],
                    old(self).get_devices_spec().lookup(old(self).pending_events()[0].index, origin),
                ),
            ) && final(self).pending_events() == old(self).pending_events().subrange(
                1,
                old(self).pending_events().len() as int,
            ),
    {
        match self.events.pop_front() {
            Some(event) => Some((event, self.devices.pose_lookup(event.index, origin))),
            None => None,
        }
    }

    /// Takes the event that has waited longest, if any.
    pub fn poll_next_event(&mut self) -> (r: Option<InputEvent>)
        requires
            old(self).wf(),
        ensures
            final(self).wf(),
            final(self).in_real_session() == old(self).in_real_session(),
            final(self).tracks_hands() == old(self).tracks_hands(),
            final(self).manifest_path() == old(self).manifest_path(),
            final(self).legacy_set() == old(self).legacy_set(),
            final(self).keeps_handles(old(self)),
            final(self).action_handles() == old(self).action_handles(),
            final(self).set_handles() == old(self).set_handles(),
            final(self).loaded() == old(self).loaded(),
            final(self).legacy_ready() == old(self).legacy_ready(),
            final(self).legacy() == old(self).legacy(),
            final(self).device_table() == old(self).device_table(),
            final(self).pending_haptics() == old(self).pending_haptics(),
            final(self).readings() == old(self).readings(),
            old(self).pending_events().len() == 0 ==> r.is_none() && final(self).pending_events()
                == old(self).pending_events(),
            old(self).pending_events().len() > 0 ==> r == Some(old(self).pending_events()[0])
                && final(self).pending_events() == old(self).pending_events().subrange(
                1,
                old(self).pending_events().len() as int,
            ),
    {
        self.events.pop_front()
    }

    /// Appends an event behind all that wait.
    pub fn push_event(&mut self, event: InputEvent)
        requires
            old(self).wf(),
        ensures
            final(self).wf(),
            final(self).in_real_session() == old(self).in_real_session(),
            final(self).tracks_hands() == old(self).tracks_hands(),
            final(self).manifest_path() == old(self).manifest_path(),
            final(self).legacy_set() == old(self).legacy_set(),
            final(self).keeps_handles(old(self)),
            final(self).action_handles() == old(self).action_handles(),
            final(self).set_handles() == old(self).set_handles(),
            final(self).loaded() == old(self).loaded(),
            final(self).legacy_ready() == old(self).legacy_ready(),
            final(self).legacy() == old(self).legacy(),
            final(self).device_table() == old(self).device_table(),
            final(self).pending_haptics() == old(self).pending_haptics(),
            final(self).readings() == old(self).readings(),
            final(self).pending_events() == old(self).pending_events().push(event),
    {
        self.events.push_back(event);
    }

    /// Reads the pose of the controller of `hand` from the cache, or
    /// tells which space to locate. A controller that is not connected
    /// has no pose.
    pub fn get_controller_pose(&self, hand: Hand, origin: TrackingUniverseOrigin) -> (r: Option<
        PoseLookup,
    >)
        requires
            self.wf(),
        ensures
            r == (if self.device_table()[controller_index(hand)].connected {
                self.get_devices_spec().lookup(controller_index(hand) as u32, origin)
            } else {
                None
            }),
    {
        match self.devices.get_controller_index(hand) {
            Some(index) => self.devices.pose_lookup(index, origin),
            None => None,
        }
    }

    /// Reads the pose of the device at `index` from the cache, or tells
    /// which space to locate.
    pub fn get_device_pose(&self, index: u32, origin: TrackingUniverseOrigin) -> (r: Option<
        PoseLookup,
    >)
        ensures
            r == self.get_devices_spec().lookup(index, origin),
    {
        self.devices.pose_lookup(index, origin)
    }

    /// Caches the pose that the caller located for the device at `index`,
    /// unless a pose is cached for `origin` already, and returns the pose
    /// that every read finds until the cache is emptied.
    pub fn fill_pose(&mut self, index: u32, origin: TrackingUniverseOrigin, pose: TrackedDevicePose)
        -> (r: Option<TrackedDevicePose>)
        requires
            old(self).wf(),
        ensures
            final(self).wf(),
            final(self).in_real_session() == old(self).in_real_session(),
            final(self).tracks_hands() == old(self).tracks_hands(),
            final(self).manifest_path() == old(self).manifest_path(),
            final(self).legacy_set() == old(self).legacy_set(),
            final(self).keeps_handles(old(self)),
            final(self).action_handles() == old(self).action_handles(),
            final(self).set_handles() == old(self).set_handles(),
            final(self).loaded() == old(self).loaded(),
            final(self).legacy_ready() == old(self).legacy_ready(),
            final(self).legacy() == old(self).legacy(),
            final(self).pending_events() == old(self).pending_events(),
            final(self).pending_haptics() == old(self).pending_haptics(),
            final(self).readings() == old(self).readings(),
            final(self).device_table().len() == old(self).device_table().len(),
            index >= old(self).device_table().len() ==> r.is_none() && final(self).device_table()
                == old(self).device_table(),
            index < old(self).device_table().len() ==> r == Some(
                match old(self).device_table()[index as int].cached(origin) {
                    Some(p) => p,
                    None => pose,
                },
            ) && final(self).get_devices_spec().lookup(index, origin) == Some(
                PoseLookup::Cached(r.unwrap()),
            ) && final(self).device_table()[index as int] == old(
                self,
            ).device_table()[index as int].with_pose(origin, pose),
            forall|i: int|
                0 <= i < old(self).device_table().len() && i != index
                    ==> #[trigger] final(self).device_table()[i] == old(self).device_table()[i],
    {
        self.devices.fill_pose(index, origin, pose)
    }

    /// Replaces the generic trackers by those among `xdevs` that qualify,
    /// as far as the table has room, and returns their positions in
    /// `xdevs`, for the caller to create their spaces.
    pub fn create_generic_trackers(&mut self, xdevs: &Vec<XDev>) -> (picks: Vec<usize>)
        requires
            old(self).wf(),
        ensures
            final(self).wf(),
            final(self).in_real_session() == old(self).in_real_session(),
            final(self).tracks_hands() == old(self).tracks_hands(),
            final(self).manifest_path() == old(self).manifest_path(),
            final(self).pending_haptics() == old(self).pending_haptics(),
            final(self).legacy_set() == old(self).legacy_set(),
            final(self).keeps_handles(old(self)),
            final(self).action_handles() == old(self).action_handles(),
            final(self).set_handles() == old(self).set_handles(),
            final(self).loaded() == old(self).loaded(),
            final(self).legacy_ready() == old(self).legacy_ready(),
            final(self).legacy() == old(self).legacy(),
            final(self).pending_events() == old(self).pending_events(),
            final(self).readings() == old(self).readings(),
            picks@.map_values(|p: usize| p as int) == crate::devices::tracker_picks(
                xdevs@,
                0,
                crate::devices::MAX_TRACKED_DEVICE_COUNT - crate::devices::FIXED_DEVICE_COUNT,
            ),
            final(self).device_table().len() == 3 + picks@.len(),
            forall|i: int| 0 <= i < 3 ==> final(self).device_table()[i]
                == old(self).device_table()[i],
            forall|k: int|
                0 <= k < picks@.len() ==> {
                    let d = #[trigger] final(self).device_table()[3 + k];
                    &&& 0 <= picks@[k] < xdevs@.len()
                    &&& d.device_type == (crate::devices::TrackedDeviceType::GenericTracker {
                        serial: xdevs@[picks@[k] as int].serial,
                    })
                    &&& d.connected
                    &&& d.interaction_profile == Some(Profile::ViveTracker)
                },
    {
        self.devices.create_generic_trackers(xdevs)
    }
}

impl Input {
    /// The number of action handles handed out.
    pub fn action_handle_count(&self) -> (n: usize)
        requires
            self.wf(),
        ensures
            n == self.action_handles().len(),
    {
        self.action_map.len()
    }

    /// The number of action set handles handed out.
    pub fn set_handle_count(&self) -> (n: usize)
        requires
            self.wf(),
        ensures
            n == self.set_handles().len(),
    {
        self.set_map.len()
    }

    /// The path that an action handle stands for.
    pub fn action_path(&self, handle: u64) -> (r: Option<&String>)
        requires
            self.wf(),
        ensures
            r.is_some() == self.action_handles().contains_key(canonical(handle)),
            r.is_some() ==> r.unwrap()@ == self.action_handles()[canonical(handle)],
    {
        self.action_map.get(handle)
    }

    /// The number of events that wait.
    pub fn event_count(&self) -> (n: usize)
        ensures
            n == self.pending_events().len(),
    {
        self.events.len()
    }

    /// What the interface remembers of the legacy controller state.
    pub fn get_legacy_state(&self) -> (r: LegacyState)
        ensures
            r == self.legacy(),
    {
        self.legacy_state
    }
}

/// What a summary of the fingers reports: the splay between neighbouring
/// fingers and the curl of each finger.
#[derive(Clone, Copy, Debug, PartialEq, Eq)]
pub struct SkeletalSummaryData {
    pub finger_splay: [Fixed; 4],
    pub finger_curl: [Fixed; 5],
}

impl Input {
    /// The summary of the fingers of a skeleton action: a splay of 0.2
    /// between all fingers, and no curl.
    pub fn get_skeletal_summary_data(&self, handle: u64) -> (r: Result<
        SkeletalSummaryData,
        InputError,
    >)
        requires
            self.wf(),
        ensures
            r.is_err() == self.kind_of(handle).is_err(),
            r matches Err(e) ==> self.kind_of(handle) == Err::<ActionKind, InputError>(e),
            r matches Ok(data) ==> (forall|i: int|
                0 <= i < 4 ==> data.finger_splay@[i] == Fixed { raw: FINGER_SPLAY }) && (forall|
                i: int,
            | 0 <= i < 5 ==> data.finger_curl@[i] == Fixed { raw: 0 }),
    {
        let loaded = match &self.loaded_actions {
            Some(l) => l,
            None => {
                return Err(InputError::InvalidHandle);
            },
        };
        match loaded.try_get_action(handle) {
            Some(index) => {
                proof {
                    lemma_action_index(*loaded, handle, index as int, 0);
                }
            },
            None => {
                return Err(InputError::InvalidHandle);
            },
        }
        let splay = Fixed { raw: FINGER_SPLAY };
        let zero = Fixed { raw: 0 };
        Ok(
            SkeletalSummaryData {
                finger_splay: [splay, splay, splay, splay],
                finger_curl: [zero, zero, zero, zero, zero],
            },
        )
    }

    /// Tells whether the device at `index` exists and is connected.
    pub fn is_device_connected(&self, index: u32) -> (r: bool)
        ensures
            r == (index < self.device_table().len() && self.device_table()[index as int].connected),
    {
        match self.devices.get_device(index) {
            Some(d) => d.connected,
            None => false,
        }
    }

    /// The class of the device at `index`, if there is one.
    pub fn device_index_to_tracked_device_class(&self, index: u32) -> (r: Option<
        TrackedDeviceClass,
    >)
        ensures
            r == (if index < self.device_table().len() {
                Some(self.device_table()[index as int].device_type.class())
            } else {
                None
            }),
    {
        match self.devices.get_device(index) {
            Some(d) => Some(d.get_class()),
            None => None,
        }
    }

    /// The hand of the controller at `index`; `None` where there is no
    /// device or the device is no controller.
    pub fn device_index_to_hand(&self, index: u32) -> (r: Option<Hand>)
        ensures
            r == (if index < self.device_table().len() {
                self.device_table()[index as int].device_type.hand()
            } else {
                None
            }),
    {
        self.devices.device_index_to_hand(index)
    }

    /// The index of the controller of `hand` while it is connected.
    pub fn get_controller_device_index(&self, hand: Hand) -> (r: Option<u32>)
        requires
            self.wf(),
        ensures
            r == (if self.device_table()[controller_index(hand)].connected {
                Some(controller_index(hand) as u32)
            } else {
                None
            }),
    {
        self.devices.get_controller_index(hand)
    }

    /// Reads a string property of the device at `index`; `None` where
    /// there is no device or the device does not have the property.
    pub fn get_device_string_tracked_property(
        &self,
        index: u32,
        property: TrackedDeviceProperty,
    ) -> (r: Option<String>)
        ensures
            index >= self.device_table().len() ==> r.is_none(),
            index < self.device_table().len() ==> r.is_some()
                == self.device_table()[index as int].string_property(property).is_some(),
            r.is_some() ==> r.unwrap()@
                == self.device_table()[index as int].string_property(property).unwrap(),
    {
        match self.devices.get_device(index) {
            Some(d) => d.get_string_property(property),
            None => None,
        }
    }

    /// Reads a 32-bit property of the device at `index`; `None` where
    /// there is no device or the device does not have the property.
    pub fn get_device_int_tracked_property(&self, index: u32, property: TrackedDeviceProperty) -> (r:
        Option<i32>)
        ensures
            r == (if index < self.device_table().len() {
                self.device_table()[index as int].int_property(property)
            } else {
                None
            }),
    {
        match self.devices.get_device(index) {
            Some(d) => d.get_int_property(property),
            None => None,
        }
    }

    /// Reads a 64-bit property of the device at `index`; `None` where
    /// there is no device or the device does not have the property.
    pub fn get_device_uint_tracked_property(&self, index: u32, property: TrackedDeviceProperty) -> (r:
        Option<u64>)
        ensures
            r == (if index < self.device_table().len() {
                self.device_table()[index as int].uint_property(property)
            } else {
                None
            }),
    {
        match self.devices.get_device(index) {
            Some(d) => d.get_uint_property(property),
            None => None,
        }
    }

    /// Reads a string property of the controller of `hand`.
    pub fn get_controller_string_tracked_property(
        &self,
        hand: Hand,
        property: TrackedDeviceProperty,
    ) -> (r: Option<String>)
        requires
            self.wf(),
        ensures
            r.is_some()
                == self.device_table()[controller_index(hand)].string_property(property).is_some(),
            r.is_some() ==> r.unwrap()@
                == self.device_table()[controller_index(hand)].string_property(property).unwrap(),
    {
        self.devices.get_controller(hand).get_string_property(property)
    }

    /// Reads a 32-bit property of the controller of `hand`.
    pub fn get_controller_int_tracked_property(&self, hand: Hand, property: TrackedDeviceProperty)
        -> (r: Option<i32>)
        requires
            self.wf(),
        ensures
            r == self.device_table()[controller_index(hand)].int_property(property),
    {
        self.devices.get_controller(hand).get_int_property(property)
    }

    /// Reads the poses of the first `count` devices from the cache, or
    /// tells which spaces to locate. A position without a device holds
    /// `None`; the host keeps what it had there.
    pub fn get_poses(&self, count: usize, origin: TrackingUniverseOrigin) -> (r: Vec<
        Option<PoseLookup>,
    >)
        ensures
            r@.len() == count,
            forall|i: int|
                0 <= i < count ==> #[trigger] r@[i] == (if i <= u32::MAX {
                    self.get_devices_spec().lookup(i as u32, origin)
                } else {
                    None
                }),
    {
        let mut out: Vec<Option<PoseLookup>> = Vec::new();
        let mut i: usize = 0;
        while i < count
            invariant
                i <= count,
                out@.len() == i,
                forall|j: int|
                    0 <= j < i ==> #[trigger] out@[j] == (if j <= u32::MAX {
                        self.devices.lookup(j as u32, origin)
                    } else {
                        None
                    }),
            decreases count - i,
        {
            if i <= u32::MAX as usize {
                out.push(self.devices.pose_lookup(i as u32, origin));
            } else {
                out.push(None);
            }
            i += 1;
        }
        out
    }
}

/// A manifest shuts the legacy state out and leaves the legacy pulse in:
/// while a manifest is loaded, no device has a legacy controller state,
/// and a legacy pulse on a controller asks for a vibration on the first
/// haptic action of the manifest, if the manifest has one.
pub proof fn lemma_manifest_excludes_legacy(input: &Input, device_index: u32, duration_us: u16)
    requires
        input.wf(),
        input.loaded().is_some(),
    ensures
        !input.reads_legacy(device_index),
        device_index < input.device_table().len()
            && input.device_table()[device_index as int].device_type.hand().is_some()
            && first_haptic(input.loaded().unwrap(), 0).is_some() ==> input.legacy_haptic_of(
            device_index,
            duration_us,
        ) == Some(
            legacy_pulse(
                first_haptic(input.loaded().unwrap(), 0).unwrap(),
                input.device_table()[device_index as int].device_type.hand().unwrap(),
                duration_us,
            ),
        ),
{
}

} // verus!
