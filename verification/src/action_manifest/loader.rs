//! Loading a manifest: declaring its sets and actions, and binding its
//! binding files for each supported profile.

use crate::action_manifest::ActionEntry;
use crate::action_manifest::ActionKind;
use crate::action_manifest::ActionManifest;
use crate::action_manifest::ActionType;
use crate::action_manifest::LoadedAction;
use crate::action_manifest::LoadedActions;
use crate::action_manifest::LoadedSet;
use crate::action_manifest::Localization;
use crate::action_manifest::classify::skeleton_hand;
use crate::action_manifest::classify::skeleton_hand_of;
use crate::action_manifest::names::action_set_name;
use crate::action_manifest::names::clip_localized_name;
use crate::action_manifest::names::leaf_name;
use crate::action_manifest::names::leaf_of;
use crate::action_manifest::names::sanitized;
use crate::action_manifest::names::sanitize_name;
use crate::action_manifest::names::set_name_of;
use crate::custom_bindings::ExtraActionData;
use crate::error::InputError;
use crate::handles::position_entries;
use crate::handles::slot_of;
use crate::handles::slot_owner;
use crate::handles::HandleMap;
use crate::profiles::Profiles;
use crate::legacy::LEGACY_FIRST_ACTION;
use crate::runtime::RuntimeKind;
use crate::strings::lowercase_of;
use crate::strings::str_eq;
use crate::strings::to_lowercase;
use vstd::prelude::*;

verus! {
/// The name that the runtime shows for `path`: the name of the first
/// localization, from `first` on, whose path is `path` when written in
/// lowercase, or else the path itself; clipped to what the runtime takes.
pub open spec fn localized_of(localization: Seq<Localization>, path: Seq<char>, first: int) -> Seq<
    char,
>
    decreases localization.len() - first,
{
    if first < 0 || first >= localization.len() {
        crate::action_manifest::names::clipped(path)
    } else if lowercase_of(localization[first].path@) == path {
        crate::action_manifest::names::clipped(localization[first].name@)
    } else {
        localized_of(localization, path, first + 1)
    }
}

/// Finds the name that the runtime shows for `path`.
pub fn localized_name(localization: &Vec<Localization>, path: &str) -> (r: String)
    ensures
        r@ == localized_of(localization@, path@, 0),
{
    let mut i: usize = 0;
    while i < localization.len()
        invariant
            i <= localization.len(),
            localized_of(localization@, path@, 0) == localized_of(localization@, path@, i as int),
        decreases localization.len() - i,
    {
        let lowered = to_lowercase(localization[i].path.as_str());
        if str_eq(lowered.as_str(), path) {
            return clip_localized_name(localization[i].name.as_str());
        }
        i += 1;
    }
    clip_localized_name(path)
}

/// True when a declared action can be loaded: its name, in lowercase, has
/// the form of an action path, and a skeleton action names its hand.
pub open spec fn loadable(entry: ActionEntry) -> bool {
    set_name_of(lowercase_of(entry.name@)).is_some() && (entry.ty == ActionType::Skeleton
        ==> entry.skeleton.is_some() && skeleton_hand_of(
        lowercase_of(entry.skeleton.unwrap()@),
    ).is_some())
}

/// True when the handle tables have room for everything that the
/// manifest declares.
pub open spec fn has_room(set_map: &HandleMap, action_map: &HandleMap, manifest: &ActionManifest)
    -> bool {
    &&& set_map@.len() + manifest.action_sets@.len() + manifest.actions@.len()
        < HandleMap::capacity()
    &&& action_map@.len() + manifest.actions@.len() < HandleMap::capacity()
    &&& manifest.actions@.len() + 1 < LEGACY_FIRST_ACTION
}

impl LoadedActions {
    /// True when every loaded set and action carries a handle that the
    /// given table holds for its name.
    pub open spec fn registered_in(
        &self,
        sets: Map<u64, Seq<char>>,
        actions: Map<u64, Seq<char>>,
    ) -> bool {
        &&& forall|i: int|
            0 <= i < self.sets@.len() ==> sets.contains_key((#[trigger] self.sets@[i]).handle)
                && sets[self.sets@[i].handle] == self.sets@[i].name@
        &&& forall|i: int|
            0 <= i < self.actions@.len() ==> actions.contains_key(
                (#[trigger] self.actions@[i]).handle,
            ) && actions[self.actions@[i].handle] == self.actions@[i].path@
    }

    /// True when every loaded set and action carries the handle that its
    /// table gives to its name.
    pub open spec fn registered(&self, set_map: &HandleMap, action_map: &HandleMap) -> bool {
        self.registered_in(set_map@, action_map@)
    }

    /// True when a set with the name `name` is loaded.
    pub open spec fn has_set(&self, name: Seq<char>) -> bool {
        exists|i: int| 0 <= i < self.sets@.len() && (#[trigger] self.sets@[i]).name@ == name
    }

    /// True when an action with the path `path` is loaded.
    pub open spec fn has_action(&self, path: Seq<char>) -> bool {
        exists|i: int| 0 <= i < self.actions@.len() && (#[trigger] self.actions@[i]).path@ == path
    }

    /// True when the loaded action at `i` is what `entry` declares: its
    /// path is the name in lowercase, its kind is that of the declared
    /// type, and a skeleton action has the hand that the entry names.
    pub open spec fn declared_by(&self, i: int, entry: ActionEntry) -> bool {
        &&& self.actions@[i].path@ == lowercase_of(entry.name@)
        &&& self.actions@[i].kind == ActionKind::of(entry.ty)
        &&& self.actions@[i].hand == (if entry.ty == ActionType::Skeleton
            && entry.skeleton.is_some() {
            skeleton_hand_of(lowercase_of(entry.skeleton.unwrap()@))
        } else {
            None
        })
    }

    /// True when every loaded action is what one of the first `n` entries
    /// declares, and the set it belongs to is loaded.
    pub open spec fn sound(&self, entries: Seq<ActionEntry>, n: int) -> bool {
        forall|i: int|
            0 <= i < self.actions@.len() ==> (exists|k: int|
                0 <= k < n && #[trigger] self.declared_by(i, entries[k])) && set_name_of(
                (#[trigger] self.actions@[i]).path@,
            ).is_some() && self.has_set(set_name_of(self.actions@[i].path@).unwrap())
    }

    /// True when each of the first `n` entries that can be loaded is
    /// loaded.
    pub open spec fn complete(&self, entries: Seq<ActionEntry>, n: int) -> bool {
        forall|k: int|
            0 <= k < n && loadable(#[trigger] entries[k]) ==> self.has_action(
                lowercase_of(entries[k].name@),
            )
    }

    /// True when a set with the name `name` is loaded whose runtime set
    /// is `runtime_set`.
    pub open spec fn in_set(&self, name: Seq<char>, runtime_set: u32) -> bool {
        exists|i: int|
            0 <= i < self.sets@.len() && (#[trigger] self.sets@[i]).name@ == name
                && self.sets@[i].runtime_set == runtime_set
    }

    /// True when the runtime set of `set` carries the names made from the
    /// name of the set: its last part, made fit for the runtime, and the
    /// name that the manifest shows for it.
    pub open spec fn set_named(&self, set: LoadedSet, localization: Seq<Localization>) -> bool {
        let made = self.runtime_sets@[set.runtime_set as int];
        &&& made.name@ == sanitized(leaf_of(set.name@))
        &&& made.localized_name@ == localized_of(localization, set.name@, 0)
        &&& made.priority == 0
    }

    /// True when the runtime action of `action`, if it has one, carries
    /// the names made from the path of the action, and belongs to the
    /// runtime set of the set that the path names.
    pub open spec fn action_named(&self, action: LoadedAction, localization: Seq<Localization>)
        -> bool {
        action.action matches Some(id) ==> {
            let made = self.runtime_actions@[id as int];
            &&& made.name@ == sanitized(leaf_of(action.path@))
            &&& made.localized_name@ == localized_of(localization, action.path@, 0)
            &&& self.in_set(set_name_of(action.path@).unwrap(), made.set)
        }
    }

    /// True when everything that is to be created in the runtime for a
    /// loaded set or action carries the names made from its path.
    pub open spec fn named(&self, localization: Seq<Localization>) -> bool {
        &&& forall|i: int|
            0 <= i < self.sets@.len() ==> self.set_named(#[trigger] self.sets@[i], localization)
        &&& forall|i: int|
            0 <= i < self.actions@.len() ==> self.action_named(
                #[trigger] self.actions@[i],
                localization,
            )
    }

    /// True when nothing is bound: no binding is suggested, no runtime
    /// action is shared, and no action has a custom binding, a pose or an
    /// extra action.
    pub open spec fn unbound(&self) -> bool {
        &&& self.keyed@.len() == 0
        &&& forall|p: int|
            0 <= p < self.suggestions@.len() ==> (#[trigger] self.suggestions@[p]).bindings@.len()
                == 0
        &&& forall|i: int|
            0 <= i < self.actions@.len() ==> {
                let a = #[trigger] self.actions@[i];
                &&& a.bindings@.len() == 0
                &&& a.poses@.len() == 0
                &&& a.extra == ExtraActionData::none()
            }
    }

    /// True when `self` holds what the manifest declares, with nothing
    /// bound: beside the info set and its action, the declared sets are
    /// loaded, the loaded actions are the declared actions that can be
    /// loaded, and each is to be created in the runtime under the names
    /// made from its path.
    pub open spec fn declares(&self, manifest: ActionManifest) -> bool {
        &&& self.wf()
        &&& self.sound(manifest.actions@, manifest.actions@.len() as int)
        &&& self.complete(manifest.actions@, manifest.actions@.len() as int)
        &&& forall|k: int|
            0 <= k < manifest.action_sets@.len() ==> self.has_set(
                lowercase_of((#[trigger] manifest.action_sets@[k]).name@),
            )
        &&& self.named(manifest.localization@)
        &&& self.unbound()
        &&& self.info_named()
    }

    /// True when the info set and its action are what they are created
    /// as.
    pub open spec fn info_named(&self) -> bool {
        &&& self.info_set == 0
        &&& self.info_action == 0
        &&& self.runtime_sets@[0].name@ == "xrizer-info-set"@
        &&& self.runtime_actions@[0].name@ == "xrizer-info-action"@
        &&& self.runtime_actions@[0].kind == RuntimeKind::Bool
        &&& self.runtime_actions@[0].set == 0
    }

    /// What is to be created keeps its names while sets, actions and
    /// bindings are added behind it.
    pub proof fn lemma_named_kept(
        before: &LoadedActions,
        after: &LoadedActions,
        localization: Seq<Localization>,
    )
        requires
            before.wf(),
            before.named(localization),
            before.sets@.len() <= after.sets@.len(),
            forall|i: int|
                0 <= i < before.sets@.len() ==> #[trigger] after.sets@[i] == before.sets@[i],
            before.actions@.len() <= after.actions@.len(),
            forall|i: int|
                0 <= i < before.actions@.len() ==> (#[trigger] after.actions@[i]).path
                    == before.actions@[i].path && after.actions@[i].action
                    == before.actions@[i].action,
            before.runtime_sets@.len() <= after.runtime_sets@.len(),
            forall|i: int|
                0 <= i < before.runtime_sets@.len() ==> #[trigger] after.runtime_sets@[i]
                    == before.runtime_sets@[i],
            before.runtime_actions@.len() <= after.runtime_actions@.len(),
            forall|i: int|
                0 <= i < before.runtime_actions@.len() ==> #[trigger] after.runtime_actions@[i]
                    == before.runtime_actions@[i],
        ensures
            forall|i: int|
                0 <= i < before.sets@.len() ==> after.set_named(
                    #[trigger] after.sets@[i],
                    localization,
                ),
            forall|i: int|
                0 <= i < before.actions@.len() ==> after.action_named(
                    #[trigger] after.actions@[i],
                    localization,
                ),
    {
        assert forall|i: int| 0 <= i < before.sets@.len() implies after.set_named(
            #[trigger] after.sets@[i],
            localization,
        ) by {
            assert(before.set_named(before.sets@[i], localization));
            assert(after.runtime_sets@[before.sets@[i].runtime_set as int]
                == before.runtime_sets@[before.sets@[i].runtime_set as int]);
        }
        assert forall|i: int| 0 <= i < before.actions@.len() implies after.action_named(
            #[trigger] after.actions@[i],
            localization,
        ) by {
            let a = before.actions@[i];
            assert(before.action_named(a, localization));
            assert(before.action_ok(a));
            if a.action.is_some() {
                let id = a.action.unwrap();
                assert(after.runtime_actions@[id as int] == before.runtime_actions@[id as int]);
                let made = before.runtime_actions@[id as int];
                let name = set_name_of(a.path@).unwrap();
                let w = choose|w: int|
                    0 <= w < before.sets@.len() && (#[trigger] before.sets@[w]).name@ == name
                        && before.sets@[w].runtime_set == made.set;
                assert(after.sets@[w] == before.sets@[w]);
            }
        }
    }

    /// Loads the set with the name `name` unless it is loaded, and returns
    /// its position.
    fn declare_set(
        &mut self,
        set_map: &mut HandleMap,
        name: String,
        localization: &Vec<Localization>,
    ) -> (r: Result<usize, InputError>)
        requires
            old(self).wf(),
            old(set_map).wf(),
            forall|i: int|
                0 <= i < old(self).sets@.len() ==> old(set_map)@.contains_key(
                    (#[trigger] old(self).sets@[i]).handle,
                ) && old(set_map)@[old(self).sets@[i].handle] == old(self).sets@[i].name@,
        ensures
            final(self).wf(),
            final(set_map).wf(),
            final(set_map).extends(old(set_map)),
            final(set_map)@.len() <= old(set_map)@.len() + 1,
            final(self).actions@ == old(self).actions@,
            final(self).runtime_actions@ == old(self).runtime_actions@,
            final(self).suggestions@ == old(self).suggestions@,
            final(self).keyed@ == old(self).keyed@,
            final(self).info_set == old(self).info_set,
            final(self).info_action == old(self).info_action,
            old(self).sets@.len() <= final(self).sets@.len() <= old(self).sets@.len() + 1,
            final(self).runtime_sets@.len() <= old(self).runtime_sets@.len() + 1,
            forall|i: int|
                0 <= i < old(self).sets@.len() ==> #[trigger] final(self).sets@[i]
                    == old(self).sets@[i],
            forall|i: int|
                old(self).sets@.len() <= i < final(self).sets@.len()
                    ==> final(set_map)@.contains_key((#[trigger] final(self).sets@[i]).handle)
                    && final(set_map)@[final(self).sets@[i].handle] == final(self).sets@[i].name@,
            r matches Ok(i) ==> i < final(self).sets@.len() && final(self).sets@[i as int].name@
                == name@,
            r matches Err(e) ==> e == InputError::MaxCapacityReached,
            old(set_map)@.len() < HandleMap::capacity() && old(self).runtime_sets@.len() < u32::MAX
                ==> r.is_ok(),
            old(self).runtime_sets@.len() <= final(self).runtime_sets@.len(),
            forall|i: int|
                0 <= i < old(self).runtime_sets@.len() ==> #[trigger] final(self).runtime_sets@[i]
                    == old(self).runtime_sets@[i],
            old(self).named(localization@) ==> final(self).named(localization@),
            old(self).unbound() ==> final(self).unbound(),
            old(self).info_named() ==> final(self).info_named(),
    {
        match self.find_set(name.as_str()) {
            Some(i) => {
                return Ok(i);
            },
            None => {},
        }
        if self.runtime_sets.len() >= u32::MAX as usize {
            return Err(InputError::MaxCapacityReached);
        }
        let handle = match set_map.intern(name.clone()) {
            Some(h) => h,
            None => {
                return Err(InputError::MaxCapacityReached);
            },
        };
        let leaf = leaf_name(name.as_str());
        let runtime_name = sanitize_name(leaf.as_str());
        let localized = localized_name(localization, name.as_str());
        proof {
            assert forall|k: u64| #[trigger]
                position_entries(self.set_positions).contains_key(k) implies slot_of(k) != slot_of(
                handle,
            ) by {
                let j = position_entries(self.set_positions)[k] as int;
                assert(self.sets@[j].handle == k);
                assert(old(set_map)@.contains_key(k));
                assert(set_map@.contains_key(k) && set_map@[k] == self.sets@[j].name@);
                if slot_of(k) == slot_of(handle) {
                    assert(slot_owner(set_map@, slot_of(k)) == k);
                    assert(slot_owner(set_map@, slot_of(handle)) == handle);
                }
            }
        }
        match self.add_set(handle, name, runtime_name, localized) {
            Some(i) => {
                proof {
                    if old(self).named(localization@) {
                        Self::lemma_named_kept(old(self), self, localization@);
                    }
                }
                Ok(i)
            },
            None => Err(InputError::MaxCapacityReached),
        }
    }

    /// Loads what `entry` declares: the action with the name in lowercase
    /// and the kind of the declared type, in the set that its path names,
    /// which is loaded with it if need be. An entry that cannot be loaded
    /// and an entry whose path is loaded already change nothing.
    fn declare_action(
        &mut self,
        set_map: &mut HandleMap,
        action_map: &mut HandleMap,
        entry: &ActionEntry,
        localization: &Vec<Localization>,
    ) -> (r: Result<(), InputError>)
        requires
            old(self).wf(),
            old(set_map).wf(),
            old(action_map).wf(),
            old(self).registered(old(set_map), old(action_map)),
        ensures
            final(self).wf(),
            final(set_map).wf(),
            final(action_map).wf(),
            final(set_map).extends(old(set_map)),
            final(action_map).extends(old(action_map)),
            final(set_map)@.len() <= old(set_map)@.len() + 1,
            final(action_map)@.len() <= old(action_map)@.len() + 1,
            final(self).suggestions@ == old(self).suggestions@,
            final(self).keyed@ == old(self).keyed@,
            final(self).info_set == old(self).info_set,
            final(self).info_action == old(self).info_action,
            old(self).sets@.len() <= final(self).sets@.len() <= old(self).sets@.len() + 1,
            final(self).runtime_sets@.len() <= old(self).runtime_sets@.len() + 1,
            final(self).runtime_actions@.len() <= old(self).runtime_actions@.len() + 1,
            forall|i: int|
                0 <= i < old(self).sets@.len() ==> #[trigger] final(self).sets@[i]
                    == old(self).sets@[i],
            forall|i: int|
                old(self).sets@.len() <= i < final(self).sets@.len()
                    ==> final(set_map)@.contains_key((#[trigger] final(self).sets@[i]).handle)
                    && final(set_map)@[final(self).sets@[i].handle] == final(self).sets@[i].name@,
            old(self).actions@.len() <= final(self).actions@.len() <= old(self).actions@.len() + 1,
            forall|i: int|
                0 <= i < old(self).actions@.len() ==> #[trigger] final(self).actions@[i]
                    == old(self).actions@[i],
            forall|i: int|
                old(self).actions@.len() <= i < final(self).actions@.len() ==> {
                    let a = #[trigger] final(self).actions@[i];
                    &&& final(action_map)@.contains_key(a.handle)
                    &&& final(action_map)@[a.handle] == a.path@
                    &&& final(self).declared_by(i, *entry)
                    &&& set_name_of(a.path@).is_some()
                    &&& final(self).has_set(set_name_of(a.path@).unwrap())
                },
            r.is_ok() && loadable(*entry) ==> final(self).has_action(lowercase_of(entry.name@)),
            old(self).named(localization@) ==> final(self).named(localization@),
            old(self).unbound() ==> final(self).unbound(),
            old(self).info_named() ==> final(self).info_named(),
            r matches Err(e) ==> e == InputError::MaxCapacityReached,
            old(set_map)@.len() < HandleMap::capacity() && old(action_map)@.len()
                < HandleMap::capacity() && old(self).runtime_sets@.len() < u32::MAX
                    && old(self).runtime_actions@.len() < LEGACY_FIRST_ACTION ==> r.is_ok(),
    {
        let path = to_lowercase(entry.name.as_str());
        let set_name = match action_set_name(path.as_str()) {
            Some(n) => n,
            None => {
                return Ok(());
            },
        };
        let kind = ActionKind::from_type(entry.ty);
        let hand = match kind {
            ActionKind::Skeleton => {
                let named = match &entry.skeleton {
                    Some(p) => skeleton_hand(to_lowercase(p.as_str()).as_str()),
                    None => None,
                };
                match named {
                    Some(h) => Some(h),
                    None => {
                        return Ok(());
                    },
                }
            },
            _ => None,
        };
        match self.find_action(path.as_str()) {
            Some(i) => {
                assert(self.has_action(lowercase_of(entry.name@)));
                return Ok(());
            },
            None => {},
        }
        let ghost set_name_chars = set_name@;
        let set_index = match self.declare_set(set_map, set_name, localization) {
            Ok(i) => i,
            Err(e) => {
                return Err(e);
            },
        };
        if self.runtime_actions.len() >= LEGACY_FIRST_ACTION as usize {
            return Err(InputError::MaxCapacityReached);
        }
        let handle = match action_map.intern(path.clone()) {
            Some(h) => h,
            None => {
                return Err(InputError::MaxCapacityReached);
            },
        };
        let leaf = leaf_name(path.as_str());
        let runtime_name = sanitize_name(leaf.as_str());
        let localized = localized_name(localization, path.as_str());
        let ghost before = self.actions@;
        let ghost mid = *self;
        proof {
            assert forall|k: u64| #[trigger]
                position_entries(self.action_positions).contains_key(k) implies slot_of(k)
                != slot_of(handle) by {
                let j = position_entries(self.action_positions)[k] as int;
                assert(self.actions@[j].handle == k);
                assert(old(self).actions@[j].handle == k);
                assert(old(action_map)@.contains_key(k));
                assert(action_map@.contains_key(k) && action_map@[k] == self.actions@[j].path@);
                if slot_of(k) == slot_of(handle) {
                    assert(slot_owner(action_map@, slot_of(k)) == k);
                    assert(slot_owner(action_map@, slot_of(handle)) == handle);
                }
            }
        }
        match self.add_action(handle, path, kind, hand, set_index, runtime_name, localized) {
            Some(i) => {
                assert(self.actions@[i as int].path@ == lowercase_of(entry.name@));
                assert(self.sets@[set_index as int].name@ == set_name_chars);
                assert(self.has_set(set_name_chars));
                proof {
                    if old(self).named(localization@) {
                        Self::lemma_named_kept(&mid, self, localization@);
                        let a = self.actions@[i as int];
                        if a.action.is_some() {
                            assert(self.in_set(
                                set_name_chars,
                                self.runtime_actions@[a.action.unwrap() as int].set,
                            ));
                        }
                        assert(self.action_named(a, localization@));
                    }
                }
                Ok(())
            },
            None => Err(InputError::MaxCapacityReached),
        }
    }
}

/// Loads a manifest. Every handle that a table held still stands for the
/// same name, so a handle handed out before the load is the handle of the
/// loaded set or action of that name.
///
/// Each declared set is loaded under its name in lowercase. Each declared
/// action that can be loaded is loaded under its name in lowercase, with
/// the kind of the type that the first declaration of that name gives,
/// in the set that its path names, which is loaded with it where the
/// manifest does not declare it. Nothing else is loaded, and each set
/// and action is to be created in the runtime under the names made from
/// its path. The binding files are then bound for the supported
/// profiles, one profile after the other, as `profiles_step` says;
/// every suggestion names a runtime action that is to be created and a
/// path that its profile offers, and the info action is suggested, on
/// every supported profile, for every click, touch, value, force and
/// single axis that the profile offers.
///
/// The load fails only for want of room in a table.
pub fn load_action_manifest(
    manifest: &ActionManifest,
    set_map: &mut HandleMap,
    action_map: &mut HandleMap,
) -> (r: Result<LoadedActions, InputError>)
    requires
        old(set_map).wf(),
        old(action_map).wf(),
    ensures
        final(set_map).wf(),
        final(action_map).wf(),
        final(set_map).extends(old(set_map)),
        final(action_map).extends(old(action_map)),
        r matches Ok(loaded) ==> {
            &&& loaded.wf()
            &&& loaded.registered(final(set_map), final(action_map))
            &&& loaded.sound(manifest.actions@, manifest.actions@.len() as int)
            &&& loaded.complete(manifest.actions@, manifest.actions@.len() as int)
            &&& forall|k: int|
                0 <= k < manifest.action_sets@.len() ==> loaded.has_set(
                    lowercase_of((#[trigger] manifest.action_sets@[k]).name@),
                )
            &&& loaded.info_bound_wide()
            &&& loaded.named(manifest.localization@)
            &&& exists|declared: LoadedActions| #[trigger]
                declared.declares(*manifest) && LoadedActions::profiles_step(
                    &loaded,
                    &declared,
                    *manifest,
                    Profiles::list().len() as int,
                )
        },
        r matches Err(e) ==> e == InputError::MaxCapacityReached,
        has_room(old(set_map), old(action_map), manifest) ==> r.is_ok(),
{
    let mut loaded = LoadedActions::new();
    let ghost set_start = set_map@.len();
    let ghost action_start = action_map@.len();
    let mut i: usize = 0;
    while i < manifest.action_sets.len()
        invariant
            i <= manifest.action_sets.len(),
            loaded.wf(),
            set_map.wf(),
            action_map.wf(),
            set_map.extends(old(set_map)),
            *action_map == *old(action_map),
            set_start == old(set_map)@.len(),
            action_start == old(action_map)@.len(),
            set_map@.len() <= set_start + i,
            loaded.actions@.len() == 0,
            loaded.runtime_actions@.len() == 1,
            loaded.runtime_sets@.len() <= 1 + i,
            loaded.registered(set_map, action_map),
            loaded.named(manifest.localization@),
            loaded.unbound(),
            loaded.info_named(),
            forall|k: int|
                0 <= k < i ==> loaded.has_set(
                    lowercase_of((#[trigger] manifest.action_sets@[k]).name@),
                ),
        decreases manifest.action_sets.len() - i,
    {
        let name = to_lowercase(manifest.action_sets[i].name.as_str());
        let ghost before = loaded;
        let ghost map_before = *set_map;
        match loaded.declare_set(set_map, name, &manifest.localization) {
            Ok(_) => {},
            Err(e) => {
                return Err(e);
            },
        }
        proof {
            assert forall|k: int| 0 <= k < i implies loaded.has_set(
                lowercase_of((#[trigger] manifest.action_sets@[k]).name@),
            ) by {
                let w = choose|w: int|
                    0 <= w < before.sets@.len() && (#[trigger] before.sets@[w]).name@
                        == lowercase_of(manifest.action_sets@[k].name@);
                assert(loaded.sets@[w] == before.sets@[w]);
            }
            assert forall|j: int| 0 <= j < loaded.sets@.len() implies set_map@.contains_key(
                (#[trigger] loaded.sets@[j]).handle,
            ) && set_map@[loaded.sets@[j].handle] == loaded.sets@[j].name@ by {
                if j < before.sets@.len() {
                    assert(loaded.sets@[j] == before.sets@[j]);
                    assert(map_before@.contains_key(before.sets@[j].handle));
                }
            }
        }
        i += 1;
    }
    let ghost set_count = manifest.action_sets@.len();
    let mut j: usize = 0;
    while j < manifest.actions.len()
        invariant
            j <= manifest.actions.len(),
            loaded.wf(),
            set_map.wf(),
            action_map.wf(),
            set_map.extends(old(set_map)),
            action_map.extends(old(action_map)),
            set_start == old(set_map)@.len(),
            action_start == old(action_map)@.len(),
            set_count == manifest.action_sets@.len(),
            set_map@.len() <= set_start + set_count + j,
            action_map@.len() <= action_start + j,
            loaded.runtime_actions@.len() <= 1 + j,
            loaded.runtime_sets@.len() <= 1 + set_count + j,
            loaded.registered(set_map, action_map),
            loaded.sound(manifest.actions@, j as int),
            loaded.complete(manifest.actions@, j as int),
            loaded.named(manifest.localization@),
            loaded.unbound(),
            loaded.info_named(),
            forall|k: int|
                0 <= k < manifest.action_sets@.len() ==> loaded.has_set(
                    lowercase_of((#[trigger] manifest.action_sets@[k]).name@),
                ),
        decreases manifest.actions.len() - j,
    {
        let ghost before = loaded;
        let ghost sets_before = *set_map;
        let ghost actions_before = *action_map;
        match loaded.declare_action(
            set_map,
            action_map,
            &manifest.actions[j],
            &manifest.localization,
        ) {
            Ok(_) => {},
            Err(e) => {
                return Err(e);
            },
        }
        proof {
            lemma_declared(&before, &loaded, manifest.actions@, j as int);
            assert forall|k: int| 0 <= k < manifest.action_sets@.len() implies loaded.has_set(
                lowercase_of((#[trigger] manifest.action_sets@[k]).name@),
            ) by {
                let w = choose|w: int|
                    0 <= w < before.sets@.len() && (#[trigger] before.sets@[w]).name@
                        == lowercase_of(manifest.action_sets@[k].name@);
                assert(loaded.sets@[w] == before.sets@[w]);
            }
            assert forall|w: int| 0 <= w < loaded.sets@.len() implies set_map@.contains_key(
                (#[trigger] loaded.sets@[w]).handle,
            ) && set_map@[loaded.sets@[w].handle] == loaded.sets@[w].name@ by {
                if w < before.sets@.len() {
                    assert(loaded.sets@[w] == before.sets@[w]);
                    assert(sets_before@.contains_key(before.sets@[w].handle));
                }
            }
            assert forall|w: int|
                0 <= w < loaded.actions@.len() implies action_map@.contains_key(
                (#[trigger] loaded.actions@[w]).handle,
            ) && action_map@[loaded.actions@[w].handle] == loaded.actions@[w].path@ by {
                if w < before.actions@.len() {
                    assert(loaded.actions@[w] == before.actions@[w]);
                    assert(actions_before@.contains_key(before.actions@[w].handle));
                }
            }
        }
        j += 1;
    }
    let ghost declared = loaded;
    loaded.bind_profiles(manifest);
    proof {
        assert(declared.declares(*manifest));
        LoadedActions::lemma_named_kept(&declared, &loaded, manifest.localization@);
        lemma_identity_keeps(&declared, &loaded, manifest.actions@, set_map, action_map);
        assert forall|k: int| 0 <= k < manifest.action_sets@.len() implies loaded.has_set(
            lowercase_of((#[trigger] manifest.action_sets@[k]).name@),
        ) by {
            let w = choose|w: int|
                0 <= w < declared.sets@.len() && (#[trigger] declared.sets@[w]).name@
                    == lowercase_of(manifest.action_sets@[k].name@);
            assert(loaded.sets@[w] == declared.sets@[w]);
        }
    }
    Ok(loaded)
}

/// Declaring the entry at `n` keeps what was loaded sound and complete and
/// extends both to that entry.
proof fn lemma_declared(
    before: &LoadedActions,
    after: &LoadedActions,
    entries: Seq<ActionEntry>,
    n: int,
)
    requires
        0 <= n < entries.len(),
        before.sound(entries, n),
        before.complete(entries, n),
        before.actions@.len() <= after.actions@.len(),
        before.sets@.len() <= after.sets@.len(),
        forall|i: int|
            0 <= i < before.sets@.len() ==> #[trigger] after.sets@[i] == before.sets@[i],
        forall|i: int|
            0 <= i < before.actions@.len() ==> #[trigger] after.actions@[i] == before.actions@[i],
        forall|i: int|
            before.actions@.len() <= i < after.actions@.len() ==> after.declared_by(i, entries[n])
                && set_name_of((#[trigger] after.actions@[i]).path@).is_some() && after.has_set(
                set_name_of(after.actions@[i].path@).unwrap(),
            ),
        loadable(entries[n]) ==> after.has_action(lowercase_of(entries[n].name@)),
    ensures
        after.sound(entries, n + 1),
        after.complete(entries, n + 1),
{
    assert forall|i: int| 0 <= i < after.actions@.len() implies (exists|k: int|
        0 <= k < n + 1 && #[trigger] after.declared_by(i, entries[k])) && set_name_of(
        (#[trigger] after.actions@[i]).path@,
    ).is_some() && after.has_set(set_name_of(after.actions@[i].path@).unwrap()) by {
        if i < before.actions@.len() {
            assert(after.actions@[i] == before.actions@[i]);
            let k = choose|k: int| 0 <= k < n && #[trigger] before.declared_by(i, entries[k]);
            assert(after.declared_by(i, entries[k]));
            let name = set_name_of(before.actions@[i].path@).unwrap();
            let w = choose|w: int|
                0 <= w < before.sets@.len() && (#[trigger] before.sets@[w]).name@ == name;
            assert(after.sets@[w] == before.sets@[w]);
        } else {
            assert(after.declared_by(i, entries[n]));
        }
    }
    assert forall|k: int| 0 <= k < n + 1 && loadable(#[trigger] entries[k])
        implies after.has_action(
        lowercase_of(entries[k].name@),
    ) by {
        if k < n {
            let w = choose|w: int|
                0 <= w < before.actions@.len() && (#[trigger] before.actions@[w]).path@
                    == lowercase_of(entries[k].name@);
            assert(after.actions@[w] == before.actions@[w]);
        }
    }
}

/// What is said of the identity of the loaded sets and actions stays
/// true while bindings are added.
proof fn lemma_identity_keeps(
    before: &LoadedActions,
    after: &LoadedActions,
    entries: Seq<ActionEntry>,
    set_map: &HandleMap,
    action_map: &HandleMap,
)
    requires
        after.extends(before),
        before.registered(set_map, action_map),
        before.sound(entries, entries.len() as int),
        before.complete(entries, entries.len() as int),
    ensures
        after.registered(set_map, action_map),
        after.sound(entries, entries.len() as int),
        after.complete(entries, entries.len() as int),
{
    assert forall|i: int| 0 <= i < after.actions@.len() implies action_map@.contains_key(
        (#[trigger] after.actions@[i]).handle,
    ) && action_map@[after.actions@[i].handle] == after.actions@[i].path@ by {
        assert(before.actions@[i].handle == after.actions@[i].handle);
    }
    assert forall|i: int| 0 <= i < after.actions@.len() implies (exists|k: int|
        0 <= k < entries.len() && #[trigger] after.declared_by(i, entries[k])) && set_name_of(
        (#[trigger] after.actions@[i]).path@,
    ).is_some() && after.has_set(set_name_of(after.actions@[i].path@).unwrap()) by {
        assert(before.actions@[i].path == after.actions@[i].path);
        let k = choose|k: int| 0 <= k < entries.len()
            && #[trigger] before.declared_by(i, entries[k]);
        assert(after.declared_by(i, entries[k]));
        let name = set_name_of(before.actions@[i].path@).unwrap();
        let w = choose|w: int|
            0 <= w < before.sets@.len() && (#[trigger] before.sets@[w]).name@ == name;
        assert(after.sets@[w] == before.sets@[w]);
    }
    assert forall|k: int|
        0 <= k < entries.len() && loadable(#[trigger] entries[k]) implies after.has_action(
        lowercase_of(entries[k].name@),
    ) by {
        let w = choose|w: int|
            0 <= w < before.actions@.len() && (#[trigger] before.actions@[w]).path@
                == lowercase_of(entries[k].name@);
        assert(after.actions@[w].path == before.actions@[w].path);
    }
}

} // verus!
