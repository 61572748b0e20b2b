//! The steps of loading that change what is loaded: creating runtime sets
//! and actions, collecting suggestions, and attaching custom bindings.

use crate::action_manifest::ActionKind;
use crate::action_manifest::BoundPose;
use crate::action_manifest::BoundPoseType;
use crate::action_manifest::KeyedAction;
use crate::action_manifest::LoadedAction;
use crate::action_manifest::LoadedActions;
use crate::action_manifest::LoadedSet;
use crate::action_manifest::ProfileBindings;
use crate::action_manifest::ProfilePose;
use crate::action_manifest::ProfileSuggestions;
use crate::custom_bindings::BindingData;
use crate::custom_bindings::ExtraActionData;
use crate::fixed::Fixed;
use crate::handles::canonical;
use crate::handles::position_entries;
use crate::handles::positions_insert;
use crate::handles::positions_new;
use crate::handles::slot_of;
use crate::legacy::LEGACY_FIRST_ACTION;
use crate::profiles::is_legal;
use crate::profiles::Profile;
use crate::profiles::Profiles;
use crate::runtime::Hand;
use crate::runtime::RuntimeAction;
use crate::runtime::RuntimeActionView;
use crate::runtime::RuntimeKind;
use crate::runtime::RuntimeSet;
use crate::runtime::Suggestion;
use crate::strings::str_eq;
use vstd::prelude::*;
use vstd::string::StringExecFns;

verus! {

impl LoadedActions {
    /// True when `self` came from `before` by steps of loading that add
    /// bindings: the sets and the identity of the actions are the same,
    /// and the runtime sets, the runtime actions and every list of
    /// suggestions still begin with what they held.
    pub open spec fn extends(&self, before: &LoadedActions) -> bool {
        &&& self.same_identity(before)
        &&& before.runtime_sets@.len() <= self.runtime_sets@.len()
        &&& forall|i: int|
            0 <= i < before.runtime_sets@.len() ==> #[trigger] self.runtime_sets@[i]
                == before.runtime_sets@[i]
        &&& before.runtime_actions@.len() <= self.runtime_actions@.len()
        &&& forall|i: int|
            0 <= i < before.runtime_actions@.len() ==> #[trigger] self.runtime_actions@[i]
                == before.runtime_actions@[i]
        &&& self.info_set == before.info_set
        &&& self.info_action == before.info_action
        &&& before.keyed@.len() <= self.keyed@.len()
        &&& forall|i: int|
            0 <= i < before.keyed@.len() ==> #[trigger] self.keyed@[i] == before.keyed@[i]
        &&& self.suggestions@.len() == before.suggestions@.len()
        &&& forall|p: int|
            0 <= p < self.suggestions@.len() ==> (#[trigger] self.suggestions@[p]).profile
                == before.suggestions@[p].profile && before.suggestions@[p].bindings@.len()
                <= self.suggestions@[p].bindings@.len()
        &&& forall|p: int, j: int|
            0 <= p < self.suggestions@.len() && 0 <= j < before.suggestions@[p].bindings@.len()
                ==> #[trigger] self.suggestions@[p].bindings@[j]
                == before.suggestions@[p].bindings@[j]
    }

    /// True when `self` holds what `before` holds.
    pub open spec fn same_as(&self, before: &LoadedActions) -> bool {
        &&& self.sets@ == before.sets@
        &&& self.actions@ == before.actions@
        &&& self.runtime_sets@ == before.runtime_sets@
        &&& self.runtime_actions@ == before.runtime_actions@
        &&& self.suggestions@ == before.suggestions@
        &&& self.keyed@ == before.keyed@
        &&& self.info_set == before.info_set
        &&& self.info_action == before.info_action
    }

    /// What is loaded before anything is declared: the info set with its
    /// one boolean action, and an empty list of suggestions for each
    /// supported profile.
    pub fn new() -> (r: LoadedActions)
        ensures
            r.wf(),
            r.sets@.len() == 0,
            r.actions@.len() == 0,
            r.keyed@.len() == 0,
            r.runtime_sets@.len() == 1,
            r.runtime_actions@.len() == 1,
            r.info_set == 0,
            r.info_action == 0,
            r.runtime_sets@[0].name@ == "xrizer-info-set"@,
            r.runtime_actions@[0].name@ == "xrizer-info-action"@,
            r.runtime_actions@[0].kind == RuntimeKind::Bool,
            forall|p: int|
                0 <= p < r.suggestions@.len() ==> (#[trigger] r.suggestions@[p]).bindings@.len()
                    == 0,
    {
        let mut runtime_sets: Vec<RuntimeSet> = Vec::new();
        runtime_sets.push(
            RuntimeSet {
                name: String::from_str("xrizer-info-set"),
                localized_name: String::from_str("XRizer info set"),
                priority: 0,
            },
        );
        let mut runtime_actions: Vec<RuntimeAction> = Vec::new();
        runtime_actions.push(
            RuntimeAction {
                name: String::from_str("xrizer-info-action"),
                localized_name: String::from_str("XRizer info action"),
                kind: RuntimeKind::Bool,
                set: 0,
            },
        );
        let profiles = Profiles::get();
        let mut suggestions: Vec<ProfileSuggestions> = Vec::new();
        let mut i: usize = 0;
        while i < profiles.len()
            invariant
                i <= profiles.len(),
                profiles@ == Profiles::list(),
                suggestions@.len() == i,
                forall|p: int|
                    0 <= p < i ==> (#[trigger] suggestions@[p]).profile == Profiles::list()[p].1
                        && suggestions@[p].bindings@.len() == 0,
            decreases profiles.len() - i,
        {
            suggestions.push(ProfileSuggestions { profile: profiles[i].1, bindings: Vec::new() });
            i += 1;
        }
        LoadedActions {
            sets: Vec::new(),
            actions: Vec::new(),
            runtime_sets,
            runtime_actions,
            suggestions,
            keyed: Vec::new(),
            info_set: 0,
            info_action: 0,
            set_positions: positions_new(),
            action_positions: positions_new(),
        }
    }

    /// Adds an action set to create in the runtime and returns its
    /// position; `None`, with nothing changed, when there is no room.
    pub fn add_runtime_set(&mut self, name: String, localized_name: String) -> (r: Option<u32>)
        requires
            old(self).wf(),
        ensures
            final(self).wf(),
            final(self).extends(old(self)),
            final(self).runtime_actions@ == old(self).runtime_actions@,
            final(self).suggestions@ == old(self).suggestions@,
            final(self).actions@ == old(self).actions@,
            final(self).keyed@ == old(self).keyed@,
            r.is_some() == (old(self).runtime_sets@.len() < u32::MAX),
            r.is_some() ==> r.unwrap() == old(self).runtime_sets@.len()
                && final(self).runtime_sets@.len() == old(self).runtime_sets@.len() + 1
                && final(self).runtime_sets@[r.unwrap() as int].name == name
                && final(self).runtime_sets@[r.unwrap() as int].localized_name == localized_name
                && final(self).runtime_sets@[r.unwrap() as int].priority == 0,
            r.is_none() ==> final(self).runtime_sets@ == old(self).runtime_sets@,
    {
        let n: usize = self.runtime_sets.len();
        if n >= u32::MAX as usize {
            return None;
        }
        self.runtime_sets.push(RuntimeSet { name, localized_name, priority: 0 });
        Some(n as u32)
    }
    /// Adds an action to create in the runtime and returns its identifier;
    /// `None`, with nothing changed, when there is no room.
    pub fn add_runtime_action(
        &mut self,
        name: String,
        localized_name: String,
        kind: RuntimeKind,
        set: u32,
    ) -> (r: Option<u32>)
        requires
            old(self).wf(),
            set < old(self).runtime_sets@.len(),
        ensures
            final(self).wf(),
            final(self).extends(old(self)),
            final(self).runtime_sets@ == old(self).runtime_sets@,
            final(self).suggestions@ == old(self).suggestions@,
            final(self).actions@ == old(self).actions@,
            final(self).keyed@ == old(self).keyed@,
            r.is_some() == (old(self).runtime_actions@.len() < LEGACY_FIRST_ACTION),
            r.is_some() ==> r.unwrap() == old(self).runtime_actions@.len()
                && final(self).runtime_actions@.len() == old(self).runtime_actions@.len() + 1 && ({
                let a = final(self).runtime_actions@[r.unwrap() as int];
                a.name == name && a.localized_name == localized_name && a.kind == kind && a.set
                    == set
            }),
            r.is_none() ==> final(self).runtime_actions@ == old(self).runtime_actions@,
    {
        let n: usize = self.runtime_actions.len();
        if n >= LEGACY_FIRST_ACTION as usize {
            return None;
        }
        self.runtime_actions.push(RuntimeAction { name, localized_name, kind, set });
        Some(n as u32)
    }

    /// True when `now` holds, behind the runtime actions and the shared
    /// actions of `before`, what finding or creating the action under
    /// `key` adds: one runtime action with the given names, type and set,
    /// entered under the key, where no action exists under the key and
    /// there is room; and nothing otherwise.
    pub open spec fn keyed_step(
        now: &LoadedActions,
        before: &LoadedActions,
        key: Seq<char>,
        name: Seq<char>,
        localized_name: Seq<char>,
        kind: RuntimeKind,
        set: u32,
    ) -> bool {
        let n = before.runtime_actions@.len();
        let k = before.keyed@.len();
        if before.shared(key).is_none() && n < LEGACY_FIRST_ACTION {
            &&& now.runtime_actions@.len() == n + 1
            &&& forall|i: int|
                0 <= i < n ==> #[trigger] now.runtime_actions@[i] == before.runtime_actions@[i]
            &&& now.runtime_actions@[n as int]@ == (RuntimeActionView {
                name,
                localized_name,
                kind,
                set,
            })
            &&& now.keyed@.len() == k + 1
            &&& forall|i: int| 0 <= i < k ==> #[trigger] now.keyed@[i] == before.keyed@[i]
            &&& now.keyed@[k as int].key@ == key
            &&& now.keyed@[k as int].action == n
        } else {
            now.runtime_actions@ == before.runtime_actions@ && now.keyed@ == before.keyed@
        }
    }

    /// Finds the shared runtime action with the key `key`, or creates it
    /// with the given name, type and set.
    ///
    /// An action that exists under the key is returned if it has the type
    /// asked for, and nothing is created; with another type there is no
    /// result. Without such an action a new one is created behind all
    /// others and entered under the key, if there is room. Whatever is
    /// returned is what the key finds from now on.
    pub fn keyed_action(
        &mut self,
        key: &str,
        name: String,
        localized_name: String,
        kind: RuntimeKind,
        set: u32,
    ) -> (r: Option<u32>)
        requires
            old(self).wf(),
            set < old(self).runtime_sets@.len(),
        ensures
            final(self).wf(),
            final(self).extends(old(self)),
            final(self).runtime_sets@ == old(self).runtime_sets@,
            final(self).suggestions@ == old(self).suggestions@,
            final(self).actions@ == old(self).actions@,
            old(self).shared(key@) matches Some(id) ==> r
                == (if old(self).runtime_actions@[id as int].kind == kind {
                Some(id)
            } else {
                None
            }) && final(self).runtime_actions@ == old(self).runtime_actions@ && final(self).keyed@
                == old(self).keyed@,
            old(self).shared(key@).is_none() ==> r == (if old(self).runtime_actions@.len()
                < LEGACY_FIRST_ACTION {
                Some(old(self).runtime_actions@.len() as u32)
            } else {
                None
            }),
            old(self).shared(key@).is_none() && r.is_some() ==> {
                let a = final(self).runtime_actions@[r.unwrap() as int];
                &&& final(self).runtime_actions@.len() == old(self).runtime_actions@.len() + 1
                &&& a.name == name
                &&& a.localized_name == localized_name
                &&& a.set == set
                &&& final(self).keyed@.len() == old(self).keyed@.len() + 1
            },
            r.is_some() ==> r.unwrap() < final(self).runtime_actions@.len()
                && final(self).runtime_actions@[r.unwrap() as int].kind == kind
                    && final(self).shared(key@) == r,
            r.is_none() ==> final(self).runtime_actions@ == old(self).runtime_actions@
                && final(self).keyed@ == old(self).keyed@,
            Self::keyed_step(final(self), old(self), key@, name@, localized_name@, kind, set),
    {
        match self.find_keyed(key) {
            Some(id) => {
                if self.runtime_actions[id as usize].kind.same(kind) {
                    Some(id)
                } else {
                    None
                }
            },
            None => {
                match self.add_runtime_action(name, localized_name, kind, set) {
                    Some(id) => {
                        let entry = KeyedAction { key: String::from_str(key), action: id };
                        proof {
                            Self::lemma_lookup_added(self.keyed@, entry, key@, 0);
                        }
                        self.keyed.push(entry);
                        Some(id)
                    },
                    None => None,
                }
            },
        }
    }

    /// Adds a loaded set together with the action set to create for it in
    /// the runtime, and returns its position; `None`, with nothing
    /// changed, when there is no room.
    pub fn add_set(
        &mut self,
        handle: u64,
        name: String,
        runtime_name: String,
        localized_name: String,
    ) -> (r: Option<usize>)
        requires
            old(self).wf(),
            canonical(handle) == handle,
            slot_of(handle) != 0xffff_ffff,
            forall|k: u64| #[trigger]
                position_entries(old(self).set_positions).contains_key(k) ==> slot_of(k)
                    != slot_of(handle),
        ensures
            final(self).wf(),
            final(self).actions@ == old(self).actions@,
            final(self).runtime_actions@ == old(self).runtime_actions@,
            final(self).suggestions@ == old(self).suggestions@,
            final(self).keyed@ == old(self).keyed@,
            final(self).info_set == old(self).info_set,
            final(self).info_action == old(self).info_action,
            position_entries(final(self).action_positions) == position_entries(
                old(self).action_positions,
            ),
            r.is_some() == (old(self).runtime_sets@.len() < u32::MAX),
            r.is_some() ==> r.unwrap() == old(self).sets@.len() && final(self).sets@.len()
                == old(self).sets@.len() + 1 && final(self).sets@[r.unwrap() as int].handle
                == handle
                && final(self).sets@[r.unwrap() as int].name == name,
            r.is_none() ==> final(self).sets@ == old(self).sets@,
            final(self).runtime_sets@.len() <= old(self).runtime_sets@.len() + 1,
            forall|i: int|
                0 <= i < old(self).sets@.len() ==> #[trigger] final(self).sets@[i]
                    == old(self).sets@[i],
            old(self).runtime_sets@.len() <= final(self).runtime_sets@.len(),
            forall|i: int|
                0 <= i < old(self).runtime_sets@.len() ==> #[trigger] final(self).runtime_sets@[i]
                    == old(self).runtime_sets@[i],
            r.is_some() ==> ({
                let made = final(self).runtime_sets@[final(self).sets@[r.unwrap() as int].runtime_set as int];
                &&& final(self).sets@[r.unwrap() as int].runtime_set
                    == old(self).runtime_sets@.len()
                &&& made.name == runtime_name
                &&& made.localized_name == localized_name
                &&& made.priority == 0
            }),
    {
        match self.add_runtime_set(runtime_name, localized_name) {
            Some(runtime_set) => {
                let n: usize = self.sets.len();
                self.sets.push(LoadedSet { handle, name, runtime_set });
                positions_insert(&mut self.set_positions, handle, n);
                Some(n)
            },
            None => None,
        }
    }

    /// Adds a loaded action of the given kind to the set at `set_index`,
    /// together with the runtime action behind it, and returns its
    /// position; `None`, with nothing changed, when there is no room.
    pub fn add_action(
        &mut self,
        handle: u64,
        path: String,
        kind: ActionKind,
        hand: Option<Hand>,
        set_index: usize,
        runtime_name: String,
        localized_name: String,
    ) -> (r: Option<usize>)
        requires
            old(self).wf(),
            set_index < old(self).sets@.len(),
            forall|i: int|
                0 <= i < old(self).actions@.len() ==> (#[trigger] old(self).actions@[i]).path@
                    != path@,
            canonical(handle) == handle,
            slot_of(handle) != 0xffff_ffff,
            forall|k: u64| #[trigger]
                position_entries(old(self).action_positions).contains_key(k) ==> slot_of(k)
                    != slot_of(handle),
        ensures
            final(self).wf(),
            final(self).sets@ == old(self).sets@,
            position_entries(final(self).set_positions) == position_entries(
                old(self).set_positions,
            ),
            final(self).suggestions@ == old(self).suggestions@,
            final(self).keyed@ == old(self).keyed@,
            final(self).runtime_sets@ == old(self).runtime_sets@,
            final(self).info_set == old(self).info_set,
            final(self).info_action == old(self).info_action,
            old(self).runtime_actions@.len() < LEGACY_FIRST_ACTION ==> r.is_some(),
            r.is_some() ==> r.unwrap() == old(self).actions@.len() && final(self).actions@.len()
                == old(self).actions@.len() + 1 && ({
                let a = final(self).actions@[r.unwrap() as int];
                &&& a.handle == handle
                &&& a.path == path
                &&& a.kind == kind
                &&& a.hand == hand
                &&& a.bindings@.len() == 0
                &&& a.poses@.len() == 0
            }),
            r.is_none() ==> final(self).actions@ == old(self).actions@
                && final(self).runtime_actions@ == old(self).runtime_actions@,
            final(self).runtime_actions@.len() <= old(self).runtime_actions@.len() + 1,
            forall|i: int|
                0 <= i < old(self).actions@.len() ==> #[trigger] final(self).actions@[i]
                    == old(self).actions@[i],
            old(self).runtime_actions@.len() <= final(self).runtime_actions@.len(),
            forall|i: int|
                0 <= i < old(self).runtime_actions@.len()
                    ==> #[trigger] final(self).runtime_actions@[i] == old(self).runtime_actions@[i],
            r.is_some() ==> ({
                let a = final(self).actions@[r.unwrap() as int];
                &&& a.extra == ExtraActionData::none()
                &&& a.action.is_some() == kind.runtime_kind().is_some()
                &&& a.action matches Some(id) ==> {
                    let made = final(self).runtime_actions@[id as int];
                    &&& id == old(self).runtime_actions@.len()
                    &&& made.name == runtime_name
                    &&& made.localized_name == localized_name
                    &&& made.set == old(self).sets@[set_index as int].runtime_set
                }
            }),
    {
        let action = match kind.get_runtime_kind() {
            Some(runtime_kind) => {
                let set: u32 = self.sets[set_index].runtime_set;
                match self.add_runtime_action(runtime_name, localized_name, runtime_kind, set) {
                    Some(id) => Some(id),
                    None => {
                        return None;
                    },
                }
            },
            None => None,
        };
        let n: usize = self.actions.len();
        self.actions.push(
            LoadedAction {
                handle,
                path,
                kind,
                hand,
                action,
                extra: ExtraActionData::new(),
                bindings: Vec::new(),
                poses: Vec::new(),
                last_value: (Fixed { raw: 0 }, Fixed { raw: 0 }),
            },
        );
        positions_insert(&mut self.action_positions, handle, n);
        Some(n)
    }

    /// Adds a binding to suggest for the profile at `profile_index`.
    pub fn suggest(&mut self, profile_index: usize, action: u32, path: String)
        requires
            old(self).wf(),
            profile_index < old(self).suggestions@.len(),
            action < old(self).runtime_actions@.len(),
            is_legal(path@, old(self).suggestions@[profile_index as int].profile.legal()),
        ensures
            final(self).wf(),
            final(self).extends(old(self)),
            final(self).runtime_sets@ == old(self).runtime_sets@,
            final(self).runtime_actions@ == old(self).runtime_actions@,
            final(self).actions@ == old(self).actions@,
            final(self).keyed@ == old(self).keyed@,
            final(self).suggestions@[profile_index as int].bindings@
                == old(self).suggestions@[profile_index as int].bindings@.push(Suggestion { action, path }),
            forall|p: int|
                0 <= p < old(self).suggestions@.len() && p != profile_index
                    ==> #[trigger] final(self).suggestions@[p] == old(self).suggestions@[p],
    {
        self.suggestions[profile_index].bindings.push(Suggestion { action, path });
    }

    /// True when the profile at `profile_index` already has `path`
    /// suggested for `action`.
    pub open spec fn suggested(&self, profile_index: int, action: u32, path: Seq<char>) -> bool {
        exists|j: int|
            0 <= j < self.suggestions@[profile_index].bindings@.len() && (
            #[trigger] self.suggestions@[profile_index].bindings@[j]).action == action
                && self.suggestions@[profile_index].bindings@[j].path@ == path
    }

    /// Decides whether the profile at `profile_index` already has `path`
    /// suggested for `action`.
    pub fn is_suggested(&self, profile_index: usize, action: u32, path: &str) -> (r: bool)
        requires
            profile_index < self.suggestions@.len(),
        ensures
            r == self.suggested(profile_index as int, action, path@),
    {
        let list = &self.suggestions[profile_index].bindings;
        let mut j: usize = 0;
        while j < list.len()
            invariant
                j <= list.len(),
                profile_index < self.suggestions@.len(),
                list@ == self.suggestions@[profile_index as int].bindings@,
                forall|k: int|
                    0 <= k < j ==> !((#[trigger] list@[k]).action == action && list@[k].path@
                        == path@),
            decreases list.len() - j,
        {
            if list[j].action == action && str_eq(list[j].path.as_str(), path) {
                return true;
            }
            j += 1;
        }
        false
    }

    /// Adds a binding to suggest for the profile at `profile_index`
    /// unless the same binding is suggested already.
    pub fn suggest_once(&mut self, profile_index: usize, action: u32, path: String)
        requires
            old(self).wf(),
            profile_index < old(self).suggestions@.len(),
            action < old(self).runtime_actions@.len(),
            is_legal(path@, old(self).suggestions@[profile_index as int].profile.legal()),
        ensures
            final(self).wf(),
            final(self).extends(old(self)),
            final(self).runtime_sets@ == old(self).runtime_sets@,
            final(self).runtime_actions@ == old(self).runtime_actions@,
            final(self).actions@ == old(self).actions@,
            final(self).keyed@ == old(self).keyed@,
            final(self).suggestions@[profile_index as int].bindings@ == (if old(self).suggested(
                profile_index as int,
                action,
                path@,
            ) {
                old(self).suggestions@[profile_index as int].bindings@
            } else {
                old(self).suggestions@[profile_index as int].bindings@.push(
                    Suggestion { action, path },
                )
            }),
            forall|p: int|
                0 <= p < old(self).suggestions@.len() && p != profile_index
                    ==> #[trigger] final(self).suggestions@[p] == old(self).suggestions@[p],
    {
        if !self.is_suggested(profile_index, action, path.as_str()) {
            self.suggest(profile_index, action, path);
        }
    }

    /// The custom bindings that the action at `action_index` has for
    /// `profile`: those of the first entry for the profile, or none.
    pub open spec fn bindings_of(&self, action_index: int, profile: Profile) -> Seq<BindingData> {
        Self::bindings_in(self.actions@[action_index].bindings@, profile, 0)
    }

    /// The custom bindings of the first entry for `profile` from `first`
    /// on.
    pub open spec fn bindings_in(entries: Seq<ProfileBindings>, profile: Profile, first: int)
        -> Seq<BindingData>
        decreases entries.len() - first,
    {
        if first < 0 || first >= entries.len() {
            Seq::empty()
        } else if entries[first].profile == profile {
            entries[first].bindings@
        } else {
            Self::bindings_in(entries, profile, first + 1)
        }
    }

    /// Finds the entry of custom bindings that the action at
    /// `action_index` has for `profile`.
    pub fn find_bindings(&self, action_index: usize, profile: Profile) -> (r: Option<usize>)
        requires
            action_index < self.actions@.len(),
        ensures
            r.is_some() ==> r.unwrap() < self.actions@[action_index as int].bindings@.len()
                && self.actions@[action_index as int].bindings@[r.unwrap() as int].profile
                == profile && self.bindings_of(action_index as int, profile)
                == self.actions@[action_index as int].bindings@[r.unwrap() as int].bindings@,
            r.is_some() ==> forall|j: int|
                0 <= j < r.unwrap() ==> (
                #[trigger] self.actions@[action_index as int].bindings@[j]).profile != profile,
            r.is_none() ==> self.bindings_of(action_index as int, profile) == Seq::<
                BindingData,
            >::empty(),
            r.is_none() ==> forall|k: int|
                0 <= k < self.actions@[action_index as int].bindings@.len() ==> (
                #[trigger] self.actions@[action_index as int].bindings@[k]).profile != profile,
    {
        let entries = &self.actions[action_index].bindings;
        let mut k: usize = 0;
        while k < entries.len()
            invariant
                k <= entries.len(),
                action_index < self.actions@.len(),
                entries@ == self.actions@[action_index as int].bindings@,
                Self::bindings_in(entries@, profile, 0) == Self::bindings_in(
                    entries@,
                    profile,
                    k as int,
                ),
                forall|j: int| 0 <= j < k ==> (#[trigger] entries@[j]).profile != profile,
            decreases entries.len() - k,
        {
            if entries[k].profile.same(profile) {
                return Some(k);
            }
            k += 1;
        }
        None
    }

    /// Attaches a custom binding for `profile` to the action at
    /// `action_index`, behind those it has.
    pub fn push_binding(&mut self, action_index: usize, profile: Profile, binding: BindingData)
        requires
            old(self).wf(),
            action_index < old(self).actions@.len(),
        ensures
            final(self).wf(),
            final(self).extends(old(self)),
            final(self).runtime_sets@ == old(self).runtime_sets@,
            final(self).runtime_actions@ == old(self).runtime_actions@,
            final(self).suggestions@ == old(self).suggestions@,
            final(self).keyed@ == old(self).keyed@,
            final(self).bindings_of(action_index as int, profile) == old(self).bindings_of(
                action_index as int,
                profile,
            ).push(binding),
            final(self).actions@[action_index as int].extra
                == old(self).actions@[action_index as int].extra,
            final(self).actions@[action_index as int].poses
                == old(self).actions@[action_index as int].poses,
            forall|i: int|
                0 <= i < old(self).actions@.len() && i != action_index
                    ==> #[trigger] final(self).actions@[i] == old(self).actions@[i],
    {
        match self.find_bindings(action_index, profile) {
            Some(k) => {
                self.actions[action_index].bindings[k].bindings.push(binding);
                proof {
                    Self::lemma_bindings_at(
                        self.actions@[action_index as int].bindings@,
                        profile,
                        k as int,
                    );
                }
            },
            None => {
                let mut bindings: Vec<BindingData> = Vec::new();
                bindings.push(binding);
                let ghost entries = self.actions@[action_index as int].bindings@;
                self.actions[action_index].bindings.push(ProfileBindings { profile, bindings });
                proof {
                    Self::lemma_bindings_at(
                        self.actions@[action_index as int].bindings@,
                        profile,
                        entries.len() as int,
                    );
                    assert(bindings@ =~= Seq::<BindingData>::empty().push(binding));
                }
            },
        }
    }

    /// The custom bindings for a profile are those of the entry at `k`
    /// when no entry before `k` is for the profile.
    pub proof fn lemma_bindings_at(entries: Seq<ProfileBindings>, profile: Profile, k: int)
        requires
            0 <= k < entries.len(),
            entries[k].profile == profile,
            forall|j: int| 0 <= j < k ==> (#[trigger] entries[j]).profile != profile,
        ensures
            Self::bindings_in(entries, profile, 0) == entries[k].bindings@,
    {
        Self::lemma_bindings_from(entries, profile, k, 0);
    }

    proof fn lemma_bindings_from(entries: Seq<ProfileBindings>, profile: Profile, k: int, from: int)
        requires
            0 <= from <= k < entries.len(),
            entries[k].profile == profile,
            forall|j: int| 0 <= j < k ==> (#[trigger] entries[j]).profile != profile,
        ensures
            Self::bindings_in(entries, profile, from) == entries[k].bindings@,
        decreases k - from,
    {
        if from < k {
            Self::lemma_bindings_from(entries, profile, k, from + 1);
        }
    }

    /// The pose bound to the action at `action_index` for `profile`: that
    /// of the first entry for the profile, if there is one.
    pub open spec fn pose_of(&self, action_index: int, profile: Profile) -> Option<BoundPose> {
        Self::pose_in(self.actions@[action_index].poses@, profile, 0)
    }

    /// The pose of the first entry for `profile` from `first` on.
    pub open spec fn pose_in(entries: Seq<ProfilePose>, profile: Profile, first: int) -> Option<
        BoundPose,
    >
        decreases entries.len() - first,
    {
        if first < 0 || first >= entries.len() {
            None
        } else if entries[first].profile == profile {
            Some(entries[first].pose)
        } else {
            Self::pose_in(entries, profile, first + 1)
        }
    }

    /// Finds the entry of pose bindings that the action at `action_index`
    /// has for `profile`.
    pub fn find_pose(&self, action_index: usize, profile: Profile) -> (r: Option<usize>)
        requires
            action_index < self.actions@.len(),
        ensures
            r.is_some() ==> r.unwrap() < self.actions@[action_index as int].poses@.len()
                && self.actions@[action_index as int].poses@[r.unwrap() as int].profile == profile
                && self.pose_of(action_index as int, profile) == Some(
                self.actions@[action_index as int].poses@[r.unwrap() as int].pose,
            ),
            r.is_some() ==> forall|j: int|
                0 <= j < r.unwrap() ==> (
                #[trigger] self.actions@[action_index as int].poses@[j]).profile != profile,
            r.is_none() ==> self.pose_of(action_index as int, profile).is_none(),
            r.is_none() ==> forall|j: int|
                0 <= j < self.actions@[action_index as int].poses@.len() ==> (
                #[trigger] self.actions@[action_index as int].poses@[j]).profile != profile,
    {
        let entries = &self.actions[action_index].poses;
        let mut k: usize = 0;
        while k < entries.len()
            invariant
                k <= entries.len(),
                action_index < self.actions@.len(),
                entries@ == self.actions@[action_index as int].poses@,
                Self::pose_in(entries@, profile, 0) == Self::pose_in(entries@, profile, k as int),
                forall|j: int| 0 <= j < k ==> (#[trigger] entries@[j]).profile != profile,
            decreases entries.len() - k,
        {
            if entries[k].profile.same(profile) {
                return Some(k);
            }
            k += 1;
        }
        None
    }

    /// Binds a pose of the given type to the action at `action_index` for
    /// `profile` and `hand`. What is bound for the other hand stays.
    pub fn set_pose(&mut self, action_index: usize, profile: Profile, hand: Hand, ty: BoundPoseType)
        requires
            old(self).wf(),
            action_index < old(self).actions@.len(),
        ensures
            final(self).wf(),
            final(self).extends(old(self)),
            final(self).runtime_sets@ == old(self).runtime_sets@,
            final(self).runtime_actions@ == old(self).runtime_actions@,
            final(self).suggestions@ == old(self).suggestions@,
            final(self).keyed@ == old(self).keyed@,
            final(self).actions@[action_index as int].extra
                == old(self).actions@[action_index as int].extra,
            final(self).actions@[action_index as int].bindings
                == old(self).actions@[action_index as int].bindings,
            forall|i: int|
                0 <= i < old(self).actions@.len() && i != action_index
                    ==> #[trigger] final(self).actions@[i] == old(self).actions@[i],
            final(self).pose_of(action_index as int, profile).is_some(),
            forall|q: Profile|
                q != profile ==> #[trigger] final(self).pose_of(action_index as int, q) == old(
                    self,
                ).pose_of(action_index as int, q),
            ({
                let before = match old(self).pose_of(action_index as int, profile) {
                    Some(p) => p,
                    None => BoundPose { left: None, right: None },
                };
                final(self).pose_of(action_index as int, profile).unwrap() == (match hand {
                    Hand::Left => BoundPose { left: Some(ty), right: before.right },
                    Hand::Right => BoundPose { left: before.left, right: Some(ty) },
                })
            }),
    {
        match self.find_pose(action_index, profile) {
            Some(k) => {
                match hand {
                    Hand::Left => {
                        self.actions[action_index].poses[k].pose.left = Some(ty);
                    },
                    Hand::Right => {
                        self.actions[action_index].poses[k].pose.right = Some(ty);
                    },
                }
                proof {
                    Self::lemma_pose_first(
                        self.actions@[action_index as int].poses@,
                        profile,
                        k as int,
                        0,
                    );
                    assert forall|q: Profile| q != profile implies #[trigger] self.pose_of(
                        action_index as int,
                        q,
                    ) == old(self).pose_of(action_index as int, q) by {
                        Self::lemma_pose_others(
                            old(self).actions@[action_index as int].poses@,
                            self.actions@[action_index as int].poses@,
                            profile,
                            q,
                            0,
                        );
                    }
                }
            },
            None => {
                let pose = match hand {
                    Hand::Left => BoundPose { left: Some(ty), right: None },
                    Hand::Right => BoundPose { left: None, right: Some(ty) },
                };
                let ghost n = self.actions@[action_index as int].poses@.len() as int;
                self.actions[action_index].poses.push(ProfilePose { profile, pose });
                proof {
                    Self::lemma_pose_first(
                        self.actions@[action_index as int].poses@,
                        profile,
                        n,
                        0,
                    );
                    assert forall|q: Profile| q != profile implies #[trigger] self.pose_of(
                        action_index as int,
                        q,
                    ) == old(self).pose_of(action_index as int, q) by {
                        Self::lemma_pose_others(
                            old(self).actions@[action_index as int].poses@,
                            self.actions@[action_index as int].poses@,
                            profile,
                            q,
                            0,
                        );
                    }
                }
            },
        }
    }

    /// A change of the entries for one profile, or a new entry for it
    /// behind the others, leaves the pose for every other profile as it
    /// was.
    pub proof fn lemma_pose_others(
        before: Seq<ProfilePose>,
        after: Seq<ProfilePose>,
        changed: Profile,
        profile: Profile,
        from: int,
    )
        requires
            0 <= from,
            profile != changed,
            before.len() <= after.len(),
            forall|j: int|
                0 <= j < before.len() ==> (#[trigger] after[j]).profile == before[j].profile && (
                before[j].profile != changed ==> after[j] == before[j]),
            forall|j: int| before.len() <= j < after.len() ==> (#[trigger] after[j]).profile
                == changed,
        ensures
            Self::pose_in(after, profile, from) == Self::pose_in(before, profile, from),
        decreases after.len() - from,
    {
        if from < after.len() {
            Self::lemma_pose_others(before, after, changed, profile, from + 1);
        }
    }

    /// The pose for a profile is that of the entry at `k` when no entry
    /// before `k` is for the profile.
    pub proof fn lemma_pose_first(entries: Seq<ProfilePose>, profile: Profile, k: int, from: int)
        requires
            0 <= from <= k < entries.len(),
            entries[k].profile == profile,
            forall|j: int| 0 <= j < k ==> (#[trigger] entries[j]).profile != profile,
        ensures
            Self::pose_in(entries, profile, from) == Some(entries[k].pose),
        decreases k - from,
    {
        if from < k {
            Self::lemma_pose_first(entries, profile, k, from + 1);
        }
    }
}

} // verus!
