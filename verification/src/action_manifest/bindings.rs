//! The steps that turn the sources of a binding file into suggestions and
//! custom bindings for one profile.

use crate::action_manifest::ActionKind;
use crate::action_manifest::ActionManifest;
use crate::action_manifest::ActionSetBinding;
use crate::action_manifest::DpadSubMode;
use crate::action_manifest::LoadedActions;
use crate::action_manifest::Parameters;
use crate::action_manifest::SimpleBinding;
use crate::action_manifest::SourceBinding;
use crate::action_manifest::SourceMode;
use crate::action_manifest::classify::BindingClass;
use crate::action_manifest::classify::InputKind;
use crate::action_manifest::classify::SourceInput;
use crate::action_manifest::classify::TOUCH_FROM_PULL_THRESHOLD;
use crate::action_manifest::classify::class_of;
use crate::action_manifest::classify::classify;
use crate::action_manifest::classify::gives_thresholds;
use crate::action_manifest::classify::input_kind;
use crate::action_manifest::classify::kind_of_input;
use crate::action_manifest::classify::pose_type;
use crate::action_manifest::classify::resolve;
use crate::action_manifest::classify::resolved;
use crate::action_manifest::classify::resolved_kind;
use crate::action_manifest::classify::stand_in_raw;
use crate::action_manifest::classify::target_raw;
use crate::action_manifest::classify::wide_input;
use crate::action_manifest::names::clip_localized_name;
use crate::action_manifest::names::clipped;
use crate::action_manifest::names::leaf_of;
use crate::action_manifest::names::sanitized;
use crate::action_manifest::names::leaf_name;
use crate::action_manifest::names::make_extra_action_key;
use crate::action_manifest::names::parse_hand_from_path;
use crate::action_manifest::names::sanitize_name;
use crate::custom_bindings::BindingData;
use crate::custom_bindings::BindingType;
use crate::custom_bindings::DpadActions;
use crate::custom_bindings::DpadData;
use crate::custom_bindings::DpadDirection;
use crate::custom_bindings::GrabActions;
use crate::custom_bindings::GrabBindingData;
use crate::custom_bindings::ThresholdBindingData;
use crate::custom_bindings::ToggleData;
use crate::fixed::Fixed;
use crate::legacy::LEGACY_FIRST_ACTION;
use crate::profiles::ControllerType;
use crate::profiles::Profile;
use crate::profiles::Profiles;
use crate::profiles::is_legal;
use crate::profiles::legal_path;
use crate::runtime::Hand;
use crate::runtime::RuntimeKind;
use crate::runtime::Suggestion;
use crate::runtime::SuggestionView;
use crate::strings::concat3;
use crate::strings::concat;
use crate::strings::ends_with;
use crate::strings::ends_with_seq;
use crate::strings::lowercase_of;
use crate::strings::to_lowercase;
use vstd::prelude::*;
use vstd::string::StringExecFns;

verus! {
/// The key under which the parent of the dpads over one input in one set
/// is shared.
pub open spec fn dpad_parent_key(parent: Seq<char>, set_name: Seq<char>) -> Seq<char> {
    "xrizer-dpad-parent-"@ + parent + "-"@ + set_name
}

/// The key under which the activator of the dpads over one input in one
/// set is shared.
pub open spec fn dpad_activator_key(path: Seq<char>, set_name: Seq<char>) -> Seq<char> {
    "xrizer-dpad-active-"@ + path + "-"@ + set_name
}

/// The key under which the haptic output of the dpads over one input in
/// one set is shared.
pub open spec fn dpad_haptic_key(parent: Seq<char>, set_name: Seq<char>) -> Seq<char> {
    "xrizer-dpad-haptic-"@ + parent + "-"@ + set_name
}

/// True when a dpad is activated by force: on the trackpad of a Knuckles
/// controller.
pub open spec fn uses_force(controller_type: ControllerType, parent: Seq<char>) -> bool {
    controller_type == ControllerType::Knuckles && ends_with_seq(parent, "trackpad"@)
}

/// The path of the activator of a dpad over `parent`: its click, or its
/// force where force is used, or its touch, as the sub-mode says; none
/// without a sub-mode.
pub open spec fn dpad_activator_path(parent: Seq<char>, sub_mode: Option<DpadSubMode>, force: bool)
    -> Option<Seq<char>> {
    match sub_mode {
        None => None,
        Some(DpadSubMode::Click) => if force {
            Some(parent + "/force"@)
        } else {
            Some(parent + "/click"@)
        },
        Some(DpadSubMode::Touch) => Some(parent + "/touch"@),
    }
}

/// The haptic output of a hand.
pub open spec fn haptic_output(hand: Hand) -> &'static str {
    match hand {
        Hand::Left => "/user/hand/left/output/haptic",
        Hand::Right => "/user/hand/right/output/haptic",
    }
}

/// The suggestions of the info action for the first `n` paths of a list:
/// one for each path that gives a boolean or an analog value, in their
/// order.
pub open spec fn info_suggestions(legal: Seq<&'static str>, info: u32, n: int) -> Seq<
    SuggestionView,
>
    decreases n,
{
    if n <= 0 {
        Seq::empty()
    } else if wide_input(legal[n - 1]@) {
        info_suggestions(legal, info, n - 1).push(
            SuggestionView { action: info, path: legal[n - 1]@ },
        )
    } else {
        info_suggestions(legal, info, n - 1)
    }
}

/// `path`, if it is the path of an analog input.
pub open spec fn analog_only(path: Option<Seq<char>>) -> Option<Seq<char>> {
    match path {
        Some(p) => if kind_of_input(p) == InputKind::Analog {
            Some(p)
        } else {
            None
        },
        None => None,
    }
}

impl LoadedActions {
    /// The bindings to suggest for the profile at `profile_index`, each
    /// as an action and the characters of its path.
    pub open spec fn suggestion_views(&self, profile_index: int) -> Seq<SuggestionView> {
        self.suggestions@[profile_index].bindings@.map_values(|s: Suggestion| s@)
    }

    /// How an output of a source is bound on the profile at
    /// `profile_index`. An output that is not there, or that names no
    /// loaded action, is rejected.
    pub open spec fn output_class(
        &self,
        profile_index: int,
        source: SourceBinding,
        input: SourceInput,
        output: Option<String>,
    ) -> BindingClass {
        let profile = self.suggestions@[profile_index].profile;
        if output.is_none() || self.position_of(lowercase_of(output.unwrap()@)).is_none() {
            BindingClass::Rejected
        } else {
            class_of(
                source.mode,
                input,
                self.actions@[self.position_of(lowercase_of(output.unwrap()@)).unwrap()].kind,
                resolved_kind(profile, target_raw(source.path@, input)),
                resolved_kind(profile, stand_in_raw(source.path@, input)),
                gives_thresholds(source.parameters),
            )
        }
    }

    /// Steps of loading compose: what extends an extension of a state
    /// extends that state.
    pub proof fn lemma_extends_trans(a: &LoadedActions, b: &LoadedActions, c: &LoadedActions)
        requires
            a.extends(b),
            b.extends(c),
        ensures
            a.extends(c),
    {
        assert forall|p: int, j: int|
            0 <= p < a.suggestions@.len() && 0 <= j < c.suggestions@[p].bindings@.len() implies
            #[trigger] a.suggestions@[p].bindings@[j] == c.suggestions@[p].bindings@[j] by {
            assert(b.suggestions@[p].bindings@[j] == c.suggestions@[p].bindings@[j]);
            assert(c.suggestions@[p].bindings@.len() <= b.suggestions@[p].bindings@.len());
        }
        assert forall|i: int| 0 <= i < c.runtime_actions@.len() implies
            #[trigger] a.runtime_actions@[i] == c.runtime_actions@[i] by {
            assert(b.runtime_actions@[i] == c.runtime_actions@[i]);
        }
        assert forall|i: int| 0 <= i < c.runtime_sets@.len() implies #[trigger] a.runtime_sets@[i]
            == c.runtime_sets@[i] by {
            assert(b.runtime_sets@[i] == c.runtime_sets@[i]);
        }
        assert forall|i: int| 0 <= i < c.keyed@.len() implies #[trigger] a.keyed@[i]
            == c.keyed@[i] by {
            assert(b.keyed@[i] == c.keyed@[i]);
        }
        assert forall|p: int| 0 <= p < a.suggestions@.len() implies (
        #[trigger] a.suggestions@[p]).profile == c.suggestions@[p].profile
            && c.suggestions@[p].bindings@.len() <= a.suggestions@[p].bindings@.len() by {
            assert(b.suggestions@[p].profile == c.suggestions@[p].profile);
        }
        assert forall|i: int| 0 <= i < a.actions@.len() implies ({
            let x = #[trigger] a.actions@[i];
            let y = c.actions@[i];
            &&& x.handle == y.handle
            &&& x.path == y.path
            &&& x.kind == y.kind
            &&& x.hand == y.hand
            &&& x.action == y.action
        }) by {
            assert(b.actions@[i].handle == c.actions@[i].handle);
        }
    }

    /// Nothing extends like the thing itself.
    pub proof fn lemma_extends_refl(a: &LoadedActions)
        ensures
            a.extends(a),
    {
    }

    /// The shared runtime action that a key gives: the action that exists
    /// under the key if it has the type asked for, or else, if no action
    /// exists under the key and there is room, the action that is created
    /// next.
    pub open spec fn obtainable(&self, key: Seq<char>, kind: RuntimeKind) -> Option<u32> {
        match self.shared(key) {
            Some(id) => if self.runtime_actions@[id as int].kind == kind {
                Some(id)
            } else {
                None
            },
            None => if self.runtime_actions@.len() < LEGACY_FIRST_ACTION {
                Some(self.runtime_actions@.len() as u32)
            } else {
                None
            },
        }
    }

    /// The key of the extra action of the action at `action_index` with the
    /// given suffix.
    pub open spec fn extra_key(&self, action_index: int, set_index: int, suffix: Seq<char>) -> Seq<
        char,
    > {
        crate::action_manifest::names::extra_action_key(
            self.sets@[set_index].name@,
            self.actions@[action_index].path@,
            suffix,
        )
    }

    /// True when `now` holds, behind the runtime actions and the shared
    /// actions of `before`, what finding or creating an extra action
    /// adds: where no action exists under the key of the extra action and
    /// there is room, one runtime action of the given type in the runtime
    /// set of the set at `set_index`, named by the last part of the key.
    pub open spec fn extra_created(
        now: &LoadedActions,
        before: &LoadedActions,
        action_index: int,
        set_index: int,
        suffix: Seq<char>,
        kind: RuntimeKind,
    ) -> bool {
        let key = before.extra_key(action_index, set_index, suffix);
        Self::keyed_step(
            now,
            before,
            key,
            sanitized(leaf_of(key)),
            clipped(key),
            kind,
            before.sets@[set_index].runtime_set,
        )
    }

    /// Finds or creates the extra action of the action at `action_index`
    /// with the given suffix: the shared action under the key of the extra
    /// action.
    pub fn extra_action(
        &mut self,
        action_index: usize,
        set_index: usize,
        suffix: &str,
        kind: RuntimeKind,
    ) -> (r: Option<u32>)
        requires
            old(self).wf(),
            action_index < old(self).actions@.len(),
            set_index < old(self).sets@.len(),
        ensures
            final(self).wf(),
            final(self).extends(old(self)),
            final(self).actions@ == old(self).actions@,
            final(self).suggestions@ == old(self).suggestions@,
            final(self).runtime_sets@ == old(self).runtime_sets@,
            r == old(self).obtainable(
                old(self).extra_key(action_index as int, set_index as int, suffix@),
                kind,
            ),
            r.is_none() ==> final(self).runtime_actions@ == old(self).runtime_actions@
                && final(self).keyed@ == old(self).keyed@,
            r matches Some(id) ==> id < final(self).runtime_actions@.len()
                && final(self).runtime_actions@[id as int].kind == kind && final(self).shared(
                old(self).extra_key(action_index as int, set_index as int, suffix@),
            ) == Some(id),
            Self::extra_created(
                final(self),
                old(self),
                action_index as int,
                set_index as int,
                suffix@,
                kind,
            ),
    {
        let key = make_extra_action_key(
            self.sets[set_index].name.as_str(),
            self.actions[action_index].path.as_str(),
            suffix,
        );
        let leaf = leaf_name(key.as_str());
        let name = sanitize_name(leaf.as_str());
        let localized = clip_localized_name(key.as_str());
        let set: u32 = self.sets[set_index].runtime_set;
        self.keyed_action(key.as_str(), name, localized, kind, set)
    }

    /// Suggests `path` for the runtime action behind the action at
    /// `action_index`, if it has one.
    pub fn bind_plain(&mut self, profile_index: usize, action_index: usize, path: String)
        requires
            old(self).wf(),
            profile_index < old(self).suggestions@.len(),
            action_index < old(self).actions@.len(),
            is_legal(path@, old(self).suggestions@[profile_index as int].profile.legal()),
        ensures
            final(self).wf(),
            final(self).extends(old(self)),
            final(self).runtime_sets@ == old(self).runtime_sets@,
            final(self).runtime_actions@ == old(self).runtime_actions@,
            final(self).actions@ == old(self).actions@,
            final(self).keyed@ == old(self).keyed@,
            final(self).suggestions@[profile_index as int].bindings@
                == (match old(self).actions@[action_index as int].action {
                Some(id) => old(self).suggestions@[profile_index as int].bindings@.push(
                    Suggestion { action: id, path },
                ),
                None => old(self).suggestions@[profile_index as int].bindings@,
            }),
            forall|p: int|
                0 <= p < old(self).suggestions@.len() && p != profile_index
                    ==> #[trigger] final(self).suggestions@[p] == old(self).suggestions@[p],
    {
        match self.actions[action_index].action {
            Some(id) => {
                self.suggest(profile_index, id, path);
            },
            None => {
                proof {
                    Self::lemma_extends_refl(self);
                }
            },
        }
    }

    /// True when `now` is `before` with one more custom binding for
    /// `profile` on the action at `action_index`, and the extra actions of
    /// that action replaced by `extra`; the other actions are as they were.
    pub open spec fn bound(
        now: &LoadedActions,
        before: &LoadedActions,
        action_index: int,
        profile: Profile,
        binding: Option<BindingData>,
        extra: crate::custom_bindings::ExtraActionData,
    ) -> bool {
        &&& now.actions@.len() == before.actions@.len()
        &&& now.actions@[action_index].extra == extra
        &&& now.actions@[action_index].poses == before.actions@[action_index].poses
        &&& now.bindings_of(action_index, profile) == (match binding {
            Some(b) => before.bindings_of(action_index, profile).push(b),
            None => before.bindings_of(action_index, profile),
        })
        &&& forall|i: int|
            0 <= i < before.actions@.len() && i != action_index ==> #[trigger] now.actions@[i]
                == before.actions@[i]
    }

    /// True when `now` is `before` with one more suggestion for the
    /// profile at `profile_index`: `path` for `action`.
    pub open spec fn one_more(
        now: &LoadedActions,
        before: &LoadedActions,
        profile_index: int,
        action: u32,
        path: Seq<char>,
    ) -> bool {
        let old_list = before.suggestions@[profile_index].bindings@;
        let new_list = now.suggestions@[profile_index].bindings@;
        &&& new_list.len() == old_list.len() + 1
        &&& new_list[old_list.len() as int].action == action
        &&& new_list[old_list.len() as int].path@ == path
    }

    /// True when `now` is `before` with a click bound that is made from
    /// the analog input `path`: the input is suggested for the analog
    /// extra action of the action, which is created if need be, and a
    /// threshold binding with the given thresholds is attached for the
    /// hand, if there is one. Nothing has changed when the extra action
    /// cannot be had.
    pub open spec fn threshold_bound(
        now: &LoadedActions,
        before: &LoadedActions,
        profile_index: int,
        action_index: int,
        set_index: int,
        path: Seq<char>,
        click: Option<Fixed>,
        release: Option<Fixed>,
        hand: Option<Hand>,
    ) -> bool {
        let key = before.extra_key(action_index, set_index, "_asfloat"@);
        let got = before.obtainable(key, RuntimeKind::Float);
        let profile = before.suggestions@[profile_index].profile;
        &&& got.is_none() ==> now.same_as(before)
        &&& Self::extra_created(
            now,
            before,
            action_index,
            set_index,
            "_asfloat"@,
            RuntimeKind::Float,
        )
        &&& now.runtime_sets@ == before.runtime_sets@
        &&& forall|p: int|
            0 <= p < before.suggestions@.len() && p != profile_index
                ==> (#[trigger] now.suggestions@[p]).bindings@ == before.suggestions@[p].bindings@
        &&& got matches Some(id) ==> {
            &&& now.shared(key) == Some(id)
            &&& now.runtime_actions@[id as int].kind == RuntimeKind::Float
            &&& Self::one_more(now, before, profile_index, id, path)
            &&& Self::bound(
                now,
                before,
                action_index,
                profile,
                match hand {
                    Some(h) => Some(
                        BindingData {
                            ty: BindingType::ThresholdFloat(
                                ThresholdBindingData::made(click, release),
                            ),
                            hand: h,
                            last_state: crate::custom_bindings::BindingState::Unsynced,
                        },
                    ),
                    None => None,
                },
                crate::custom_bindings::ExtraActionData {
                    analog_action: Some(id),
                    ..before.actions@[action_index].extra
                },
            )
        }
    }

    /// True when `now` is `before` with a toggle bound to the input
    /// `path`: the input is suggested for the toggle extra action of the
    /// action, which is created if need be, and a toggle that is off is
    /// attached for the hand, if there is one. Nothing has changed when
    /// the extra action cannot be had.
    pub open spec fn toggle_bound(
        now: &LoadedActions,
        before: &LoadedActions,
        profile_index: int,
        action_index: int,
        set_index: int,
        path: Seq<char>,
        hand: Option<Hand>,
    ) -> bool {
        let key = before.extra_key(action_index, set_index, "_tgl"@);
        let got = before.obtainable(key, RuntimeKind::Bool);
        let profile = before.suggestions@[profile_index].profile;
        &&& got.is_none() ==> now.same_as(before)
        &&& Self::extra_created(now, before, action_index, set_index, "_tgl"@, RuntimeKind::Bool)
        &&& now.runtime_sets@ == before.runtime_sets@
        &&& forall|p: int|
            0 <= p < before.suggestions@.len() && p != profile_index
                ==> (#[trigger] now.suggestions@[p]).bindings@ == before.suggestions@[p].bindings@
        &&& got matches Some(id) ==> {
            &&& now.shared(key) == Some(id)
            &&& now.runtime_actions@[id as int].kind == RuntimeKind::Bool
            &&& Self::one_more(now, before, profile_index, id, path)
            &&& Self::bound(
                now,
                before,
                action_index,
                profile,
                match hand {
                    Some(h) => Some(
                        BindingData {
                            ty: BindingType::Toggle(ToggleData { last_state: false }),
                            hand: h,
                            last_state: crate::custom_bindings::BindingState::Unsynced,
                        },
                    ),
                    None => None,
                },
                crate::custom_bindings::ExtraActionData {
                    toggle_action: Some(id),
                    ..before.actions@[action_index].extra
                },
            )
        }
    }

    /// True when `mid` holds what the force action of a grab adds to
    /// `before`, and `now` holds what the value action adds to that.
    pub open spec fn grab_created_over(
        now: &LoadedActions,
        mid: &LoadedActions,
        before: &LoadedActions,
        action_index: int,
        set_index: int,
    ) -> bool {
        &&& mid.extends(before)
        &&& Self::extra_created(
            mid,
            before,
            action_index,
            set_index,
            "_grabactionf"@,
            RuntimeKind::Float,
        )
        &&& Self::extra_created(
            now,
            mid,
            action_index,
            set_index,
            "_grabactionv"@,
            RuntimeKind::Float,
        )
    }

    /// True when `now` holds, behind the runtime actions and the shared
    /// actions of `before`, what the two extra actions of a grab add: the
    /// force action, and then the value action. Without the force action
    /// nothing is added.
    pub open spec fn grab_created(
        now: &LoadedActions,
        before: &LoadedActions,
        action_index: int,
        set_index: int,
    ) -> bool {
        if before.obtainable(
            before.extra_key(action_index, set_index, "_grabactionf"@),
            RuntimeKind::Float,
        ).is_none() {
            now.runtime_actions@ == before.runtime_actions@ && now.keyed@ == before.keyed@
        } else {
            exists|mid: LoadedActions| #[trigger]
                Self::grab_created_over(now, &mid, before, action_index, set_index)
        }
    }

    /// True when `now` is `before` with a grab bound: the two grab extra
    /// actions of the action are found or created, the force action
    /// first; the force input and the value input, as far as they are
    /// given, are suggested for them; and a grab with the thresholds of
    /// the source is attached for the hand, if there is one. Nothing has
    /// changed when the force action cannot be had, and nothing is bound
    /// or suggested when the value action cannot.
    pub open spec fn grab_bound(
        now: &LoadedActions,
        before: &LoadedActions,
        profile_index: int,
        action_index: int,
        set_index: int,
        force: Option<Seq<char>>,
        value: Option<Seq<char>>,
        parameters: Parameters,
        hand: Option<Hand>,
    ) -> bool {
        let force_key = before.extra_key(action_index, set_index, "_grabactionf"@);
        let value_key = before.extra_key(action_index, set_index, "_grabactionv"@);
        let profile = before.suggestions@[profile_index].profile;
        let force_found = before.obtainable(force_key, RuntimeKind::Float);
        let value_found = now.shared(value_key);
        let both = force_found.is_some() && value_found.is_some()
            && now.runtime_actions@[value_found.unwrap() as int].kind == RuntimeKind::Float;
        let old_list = before.suggestions@[profile_index].bindings@;
        let new_list = now.suggestions@[profile_index].bindings@;
        &&& force_found.is_none() ==> now.same_as(before)
        &&& Self::grab_created(now, before, action_index, set_index)
        &&& now.runtime_sets@ == before.runtime_sets@
        &&& forall|p: int|
            0 <= p < before.suggestions@.len() && p != profile_index
                ==> (#[trigger] now.suggestions@[p]).bindings@ == before.suggestions@[p].bindings@
        &&& !both ==> now.actions@ == before.actions@ && new_list == old_list
        &&& both ==> {
            let pair = GrabActions {
                force_action: force_found.unwrap(),
                value_action: value_found.unwrap(),
            };
            &&& now.shared(force_key) == force_found
            &&& Self::bound(
                now,
                before,
                action_index,
                profile,
                match hand {
                    Some(h) => Some(
                        BindingData {
                            ty: BindingType::Grab(
                                GrabBindingData::made(
                                    parameters.value_hold_threshold,
                                    parameters.value_release_threshold,
                                ),
                            ),
                            hand: h,
                            last_state: crate::custom_bindings::BindingState::Unsynced,
                        },
                    ),
                    None => None,
                },
                crate::custom_bindings::ExtraActionData {
                    grab_actions: Some(pair),
                    ..before.actions@[action_index].extra
                },
            )
            &&& new_list.len() == old_list.len() + (if force.is_some() {
                1int
            } else {
                0int
            }) + (if value.is_some() {
                1int
            } else {
                0int
            })
            &&& force.is_some() ==> new_list[old_list.len() as int].action == pair.force_action
                && new_list[old_list.len() as int].path@ == force.unwrap()
            &&& value.is_some() ==> new_list[new_list.len() - 1].action == pair.value_action
                && new_list[new_list.len() - 1].path@ == value.unwrap()
        }
    }

    /// Binds a click made from the analog input `path`: the input is
    /// suggested for the analog extra action of the action, which is
    /// created if need be, and a threshold binding with the given
    /// thresholds is attached for the hand, if there is one. Nothing
    /// changes when the extra action cannot be had.
    pub fn bind_threshold(
        &mut self,
        profile_index: usize,
        action_index: usize,
        set_index: usize,
        path: String,
        click: Option<Fixed>,
        release: Option<Fixed>,
        hand: Option<Hand>,
    )
        requires
            old(self).wf(),
            profile_index < old(self).suggestions@.len(),
            action_index < old(self).actions@.len(),
            set_index < old(self).sets@.len(),
            is_legal(path@, old(self).suggestions@[profile_index as int].profile.legal()),
        ensures
            final(self).wf(),
            final(self).extends(old(self)),
            Self::threshold_bound(
                final(self),
                old(self),
                profile_index as int,
                action_index as int,
                set_index as int,
                path@,
                click,
                release,
                hand,
            ),
    {
        let profile = self.suggestions[profile_index].profile;
        match self.extra_action(action_index, set_index, "_asfloat", RuntimeKind::Float) {
            Some(id) => {
                let ghost s1 = *self;
                self.actions[action_index].extra.analog_action = Some(id);
                let ghost s2 = *self;
                self.suggest(profile_index, id, path);
                let ghost s3 = *self;
                match hand {
                    Some(h) => {
                        self.push_binding(
                            action_index,
                            profile,
                            BindingData::new(
                                BindingType::ThresholdFloat(
                                    ThresholdBindingData::new(click, release),
                                ),
                                h,
                            ),
                        );
                        proof {
                            Self::lemma_extends_trans(self, &s3, &s2);
                        }
                    },
                    None => {},
                }
                proof {
                    Self::lemma_extends_trans(self, &s2, &s1);
                    Self::lemma_extends_trans(self, &s1, old(self));
                    Self::lemma_kept(
                        &s1,
                        self,
                        old(self).extra_key(action_index as int, set_index as int, "_asfloat"@),
                        profile_index as int,
                        id,
                        Seq::empty(),
                    );
                }
            },
            None => {},
        }
    }

    /// Binds a toggle: the input is suggested for the toggle extra
    /// action of the action, which is created if need be, and a toggle
    /// that is off is attached for the hand, if there is one. Nothing
    /// changes when the extra action cannot be had.
    pub fn bind_toggle(
        &mut self,
        profile_index: usize,
        action_index: usize,
        set_index: usize,
        path: String,
        hand: Option<Hand>,
    )
        requires
            old(self).wf(),
            profile_index < old(self).suggestions@.len(),
            action_index < old(self).actions@.len(),
            set_index < old(self).sets@.len(),
            is_legal(path@, old(self).suggestions@[profile_index as int].profile.legal()),
        ensures
            final(self).wf(),
            final(self).extends(old(self)),
            Self::toggle_bound(
                final(self),
                old(self),
                profile_index as int,
                action_index as int,
                set_index as int,
                path@,
                hand,
            ),
    {
        let profile = self.suggestions[profile_index].profile;
        match self.extra_action(action_index, set_index, "_tgl", RuntimeKind::Bool) {
            Some(id) => {
                let ghost s1 = *self;
                self.actions[action_index].extra.toggle_action = Some(id);
                let ghost s2 = *self;
                self.suggest(profile_index, id, path);
                let ghost s3 = *self;
                match hand {
                    Some(h) => {
                        self.push_binding(
                            action_index,
                            profile,
                            BindingData::new(BindingType::Toggle(ToggleData::new()), h),
                        );
                        proof {
                            Self::lemma_extends_trans(self, &s3, &s2);
                        }
                    },
                    None => {},
                }
                proof {
                    Self::lemma_extends_trans(self, &s2, &s1);
                    Self::lemma_extends_trans(self, &s1, old(self));
                    Self::lemma_kept(
                        &s1,
                        self,
                        old(self).extra_key(action_index as int, set_index as int, "_tgl"@),
                        profile_index as int,
                        id,
                        Seq::empty(),
                    );
                }
            },
            None => {},
        }
    }

    /// Binds a grab: the force and the value inputs, as far as they are
    /// given, are suggested for the two grab extra actions of the action,
    /// which are created if need be, and a grab with the thresholds of the
    /// source is attached for the hand, if there is one. The actions stay
    /// as they were when one of the two extra actions cannot be had.
    pub fn bind_grab(
        &mut self,
        profile_index: usize,
        action_index: usize,
        set_index: usize,
        force: Option<String>,
        value: Option<String>,
        parameters: Parameters,
        hand: Option<Hand>,
    )
        requires
            old(self).wf(),
            profile_index < old(self).suggestions@.len(),
            action_index < old(self).actions@.len(),
            set_index < old(self).sets@.len(),
            force.is_some() ==> is_legal(
                force.unwrap()@,
                old(self).suggestions@[profile_index as int].profile.legal(),
            ),
            value.is_some() ==> is_legal(
                value.unwrap()@,
                old(self).suggestions@[profile_index as int].profile.legal(),
            ),
        ensures
            final(self).wf(),
            final(self).extends(old(self)),
            Self::grab_bound(
                final(self),
                old(self),
                profile_index as int,
                action_index as int,
                set_index as int,
                match force {
                    Some(f) => Some(f@),
                    None => None,
                },
                match value {
                    Some(v) => Some(v@),
                    None => None,
                },
                parameters,
                hand,
            ),
    {
        let profile = self.suggestions[profile_index].profile;
        let force_action = match self.extra_action(
            action_index,
            set_index,
            "_grabactionf",
            RuntimeKind::Float,
        ) {
            Some(id) => id,
            None => {
                return ;
            },
        };
        let ghost s1 = *self;
        let value_action = match self.extra_action(
            action_index,
            set_index,
            "_grabactionv",
            RuntimeKind::Float,
        ) {
            Some(id) => id,
            None => {
                proof {
                    Self::lemma_extends_trans(self, &s1, old(self));
                    assert(Self::grab_created_over(
                        self,
                        &s1,
                        old(self),
                        action_index as int,
                        set_index as int,
                    ));
                }
                return ;
            },
        };
        let ghost s2 = *self;
        self.actions[action_index].extra.grab_actions = Some(
            GrabActions { force_action, value_action },
        );
        let ghost s3 = *self;
        match force {
            Some(path) => {
                self.suggest(profile_index, force_action, path);
            },
            None => {},
        }
        let ghost s4 = *self;
        match value {
            Some(path) => {
                self.suggest(profile_index, value_action, path);
            },
            None => {},
        }
        let ghost s5 = *self;
        match hand {
            Some(h) => {
                self.push_binding(
                    action_index,
                    profile,
                    BindingData::new(
                        BindingType::Grab(
                            GrabBindingData::new(
                                parameters.value_hold_threshold,
                                parameters.value_release_threshold,
                            ),
                        ),
                        h,
                    ),
                );
            },
            None => {},
        }
        proof {
            Self::lemma_extends_trans(self, &s5, &s4);
            Self::lemma_extends_trans(self, &s4, &s3);
            Self::lemma_extends_trans(self, &s3, &s2);
            Self::lemma_extends_trans(self, &s2, &s1);
            Self::lemma_extends_trans(self, &s1, old(self));
            assert(Self::grab_created_over(
                self,
                &s1,
                old(self),
                action_index as int,
                set_index as int,
            ));
            let force_key = old(self).extra_key(
                action_index as int,
                set_index as int,
                "_grabactionf"@,
            );
            let value_key = old(self).extra_key(
                action_index as int,
                set_index as int,
                "_grabactionv"@,
            );
            Self::lemma_extends_trans(&s2, &s1, old(self));
            Self::lemma_kept(&s1, self, force_key, profile_index as int, 0, Seq::empty());
            Self::lemma_kept(&s2, self, value_key, profile_index as int, 0, Seq::empty());
        }
    }

    /// What was found, suggested and created stays so while bindings are
    /// added: a shared action is found under its key, a suggestion stays
    /// suggested, and a runtime action keeps its type.
    pub proof fn lemma_kept(
        before: &LoadedActions,
        after: &LoadedActions,
        key: Seq<char>,
        profile_index: int,
        action: u32,
        path: Seq<char>,
    )
        requires
            after.extends(before),
            0 <= profile_index < before.suggestions@.len(),
        ensures
            before.shared(key).is_some() ==> after.shared(key) == before.shared(key),
            before.suggested(profile_index, action, path) ==> after.suggested(
                profile_index,
                action,
                path,
            ),
            action < before.runtime_actions@.len() ==> after.runtime_actions@[action as int]
                == before.runtime_actions@[action as int],
    {
        if before.shared(key).is_some() {
            Self::lemma_lookup_kept(before.keyed@, after.keyed@, key, 0);
        }
        if before.suggested(profile_index, action, path) {
            let j = choose|j: int|
                0 <= j < before.suggestions@[profile_index].bindings@.len() && (
                #[trigger] before.suggestions@[profile_index].bindings@[j]).action == action
                    && before.suggestions@[profile_index].bindings@[j].path@ == path;
            assert(after.suggestions@[profile_index].bindings@[j]
                == before.suggestions@[profile_index].bindings@[j]);
        }
    }

    /// True when `now` is `before` with a shared runtime action found or
    /// created under `key`, and `path` suggested for it on the profile,
    /// once. An action that exists under the key with the type asked for
    /// is found; without an action under the key a new one is created, if
    /// there is room, named by the key. Nothing is suggested without an
    /// action, and nothing that is suggested already.
    pub open spec fn shared_step(
        now: &LoadedActions,
        before: &LoadedActions,
        profile_index: int,
        set_index: int,
        key: Seq<char>,
        kind: RuntimeKind,
        path: Seq<char>,
        found: Option<u32>,
    ) -> bool {
        let old_list = before.suggestions@[profile_index].bindings@;
        let new_list = now.suggestions@[profile_index].bindings@;
        &&& now.wf()
        &&& now.extends(before)
        &&& now.actions@ == before.actions@
        &&& now.runtime_sets@ == before.runtime_sets@
        &&& found == before.obtainable(key, kind)
        &&& Self::keyed_step(
            now,
            before,
            key,
            sanitized(key),
            clipped(key),
            kind,
            before.sets@[set_index].runtime_set,
        )
        &&& forall|p: int|
            0 <= p < before.suggestions@.len() && p != profile_index
                ==> (#[trigger] now.suggestions@[p]).bindings@ == before.suggestions@[p].bindings@
        &&& match found {
            None => new_list == old_list,
            Some(id) => if before.suggested(profile_index, id, path) {
                new_list == old_list
            } else {
                Self::one_more(now, before, profile_index, id, path)
            },
        }
    }

    /// Finds or creates a shared runtime action and suggests `path` for
    /// it on the profile, once. An action that exists under the key with
    /// the type asked for is shared; without one a new action is created,
    /// if there is room.
    pub fn shared_action(
        &mut self,
        profile_index: usize,
        set_index: usize,
        key: &str,
        kind: RuntimeKind,
        path: String,
    ) -> (r: Option<u32>)
        requires
            old(self).wf(),
            profile_index < old(self).suggestions@.len(),
            set_index < old(self).sets@.len(),
            is_legal(path@, old(self).suggestions@[profile_index as int].profile.legal()),
        ensures
            final(self).wf(),
            final(self).extends(old(self)),
            final(self).actions@ == old(self).actions@,
            r == (match old(self).shared(key@) {
                Some(id) => if old(self).runtime_actions@[id as int].kind == kind {
                    Some(id)
                } else {
                    None
                },
                None => if old(self).runtime_actions@.len() < LEGACY_FIRST_ACTION {
                    Some(old(self).runtime_actions@.len() as u32)
                } else {
                    None
                },
            }),
            old(self).shared(key@).is_some() ==> final(self).runtime_actions@
                == old(self).runtime_actions@ && final(self).keyed@ == old(self).keyed@,
            r matches Some(id) ==> id < final(self).runtime_actions@.len()
                && final(self).runtime_actions@[id as int].kind == kind && final(self).shared(key@)
                == Some(id)
                && final(self).suggested(profile_index as int, id, path@),
            r.is_none() ==> final(self).runtime_actions@ == old(self).runtime_actions@
                && final(self).keyed@ == old(self).keyed@ && final(self).suggestions@
                    == old(self).suggestions@,
            Self::shared_step(
                final(self),
                old(self),
                profile_index as int,
                set_index as int,
                key@,
                kind,
                path@,
                r,
            ),
    {
        let name = sanitize_name(key);
        let localized = clip_localized_name(key);
        let set: u32 = self.sets[set_index].runtime_set;
        match self.keyed_action(key, name, localized, kind, set) {
            Some(id) => {
                let ghost s1 = *self;
                let ghost wanted = path@;
                self.suggest_once(profile_index, id, path);
                proof {
                    Self::lemma_extends_trans(self, &s1, old(self));
                    let list = self.suggestions@[profile_index as int].bindings@;
                    if s1.suggested(profile_index as int, id, wanted) {
                        assert(self.suggested(profile_index as int, id, wanted));
                    } else {
                        assert(list[list.len() - 1].action == id && list[list.len() - 1].path@
                            == wanted);
                    }
                }
                Some(id)
            },
            None => None,
        }
    }

    /// Finds or creates the runtime actions of the dpad over the two-axis
    /// input `parent` in the set at `set_index`, and suggests their paths
    /// on the profile.
    ///
    /// The parent is shared by every dpad over the same input in the same
    /// set: it is the action found under `dpad_parent_key`, created if
    /// there is none. The activator is the action under
    /// `dpad_activator_key` for the path that `dpad_activator_path` names,
    /// if the profile offers that path. The haptic output of the hand is
    /// added for a pad that is activated by force, if the profile offers
    /// it. There is no result when the parent cannot be had.
    pub fn get_dpad_parent(
        &mut self,
        profile_index: usize,
        controller_type: ControllerType,
        set_index: usize,
        parent: &str,
        sub_mode: Option<DpadSubMode>,
        hand: Hand,
    ) -> (r: Option<DpadActions>)
        requires
            old(self).wf(),
            profile_index < old(self).suggestions@.len(),
            set_index < old(self).sets@.len(),
            is_legal(parent@, old(self).suggestions@[profile_index as int].profile.legal()),
        ensures
            final(self).wf(),
            final(self).extends(old(self)),
            final(self).actions@ == old(self).actions@,
            Self::parent_step(
                final(self),
                old(self),
                profile_index as int,
                controller_type,
                set_index as int,
                parent@,
                sub_mode,
                hand,
                r,
            ),
    {
        let profile = self.suggestions[profile_index].profile;
        let set_name = self.sets[set_index].name.clone();
        let parent_key = concat3("xrizer-dpad-parent-", parent, "-");
        let parent_key = concat(parent_key.as_str(), set_name.as_str());
        let ghost pk = parent_key@;
        let xy = match self.shared_action(
            profile_index,
            set_index,
            parent_key.as_str(),
            RuntimeKind::Vector2,
            String::from_str(parent),
        ) {
            Some(id) => id,
            None => {
                proof {
                    let s = *self;
                    assert(Self::parent_over(
                        self,
                        &s,
                        &s,
                        old(self),
                        profile_index as int,
                        controller_type,
                        set_index as int,
                        parent@,
                        sub_mode,
                        hand,
                        None,
                    ));
                }
                return None;
            },
        };
        let ghost s1 = *self;
        let knuckles = match controller_type {
            ControllerType::Knuckles => true,
            _ => false,
        };
        let use_force = knuckles && ends_with(parent, "trackpad");
        let activator_path = match sub_mode {
            None => None,
            Some(DpadSubMode::Click) => if use_force {
                Some(concat(parent, "/force"))
            } else {
                Some(concat(parent, "/click"))
            },
            Some(DpadSubMode::Touch) => Some(concat(parent, "/touch")),
        };
        let ghost activator = dpad_activator_path(
            parent@,
            sub_mode,
            uses_force(controller_type, parent@),
        );
        let click_or_touch = match activator_path {
            None => None,
            Some(path) => {
                let legal = profile.legal_paths();
                if legal_path(path.as_str(), &legal) {
                    let key = concat3("xrizer-dpad-active-", path.as_str(), "-");
                    let key = concat(key.as_str(), set_name.as_str());
                    self.shared_action(
                        profile_index,
                        set_index,
                        key.as_str(),
                        RuntimeKind::Float,
                        path,
                    )
                } else {
                    None
                }
            },
        };
        let ghost s2 = *self;
        proof {
            Self::lemma_extends_trans(self, &s1, old(self));
            Self::lemma_kept(&s1, &s2, pk, profile_index as int, xy, parent@);
        }
        let output = match hand {
            Hand::Left => "/user/hand/left/output/haptic",
            Hand::Right => "/user/hand/right/output/haptic",
        };
        let haptic = if use_force {
            let legal = profile.legal_paths();
            if legal_path(output, &legal) {
                let key = concat3("xrizer-dpad-haptic-", parent, "-");
                let key = concat(key.as_str(), set_name.as_str());
                self.shared_action(
                    profile_index,
                    set_index,
                    key.as_str(),
                    RuntimeKind::Haptic,
                    String::from_str(output),
                )
            } else {
                None
            }
        } else {
            None
        };
        proof {
            Self::lemma_extends_trans(self, &s2, old(self));
            Self::lemma_kept(&s2, self, pk, profile_index as int, xy, parent@);
            if click_or_touch.is_some() {
                let c = click_or_touch.unwrap();
                Self::lemma_kept(
                    &s2,
                    self,
                    dpad_activator_key(activator.unwrap(), set_name@),
                    profile_index as int,
                    c,
                    activator.unwrap(),
                );
            }
        }
        proof {
            assert(Self::parent_over(
                self,
                &s1,
                &s2,
                old(self),
                profile_index as int,
                controller_type,
                set_index as int,
                parent@,
                sub_mode,
                hand,
                Some(DpadActions { xy, click_or_touch, haptic }),
            ));
        }
        Some(DpadActions { xy, click_or_touch, haptic })
    }

    /// How a direction of a dpad is bound: as a dpad for a boolean action
    /// that is loaded, and not at all otherwise.
    pub open spec fn direction_class(&self, mode: SourceMode, output: Option<String>)
        -> BindingClass {
        if output.is_none() || self.position_of(lowercase_of(output.unwrap()@)).is_none() {
            BindingClass::Rejected
        } else {
            class_of(
                mode,
                SourceInput::Direction,
                self.actions@[self.position_of(lowercase_of(output.unwrap()@)).unwrap()].kind,
                Some(InputKind::TwoAxis),
                None,
                false,
            )
        }
    }

    /// Attaches one direction of a dpad, for the hand, to the boolean
    /// action that `output` names. Nothing changes for an output that is
    /// not there or that names no boolean action.
    pub fn bind_direction(
        &mut self,
        profile_index: usize,
        mode: SourceMode,
        output: &Option<String>,
        actions: DpadActions,
        direction: DpadDirection,
        hand: Hand,
    )
        requires
            old(self).wf(),
            profile_index < old(self).suggestions@.len(),
        ensures
            final(self).wf(),
            final(self).extends(old(self)),
            Self::direction_step(
                final(self),
                old(self),
                profile_index as int,
                mode,
                *output,
                actions,
                direction,
                hand,
            ),
    {
        proof {
            Self::lemma_extends_refl(self);
        }
        let profile = self.suggestions[profile_index].profile;
        match output {
            None => {},
            Some(name) => {
                let lowered = to_lowercase(name.as_str());
                match self.find_action(lowered.as_str()) {
                    None => {},
                    Some(action_index) => {
                        let kind = self.actions[action_index].kind;
                        match classify(
                            mode,
                            SourceInput::Direction,
                            kind,
                            Some(InputKind::TwoAxis),
                            None,
                            false,
                        ) {
                            BindingClass::Dpad => {
                                self.push_binding(
                                    action_index,
                                    profile,
                                    BindingData::new(
                                        BindingType::Dpad(DpadData::new(actions, direction)),
                                        hand,
                                    ),
                                );
                            },
                            _ => {},
                        }
                    },
                }
            },
        }
    }

    /// Binds the directions of a dpad source: the runtime actions of the
    /// dpad are found or created, and each direction that has an output is
    /// attached to its action. Nothing changes when the profile offers no
    /// two-axis input under a hand for the path of the source.
    pub fn bind_dpad(
        &mut self,
        profile_index: usize,
        controller_type: ControllerType,
        set_index: usize,
        source: &SourceBinding,
    )
        requires
            old(self).wf(),
            profile_index < old(self).suggestions@.len(),
            set_index < old(self).sets@.len(),
        ensures
            final(self).wf(),
            final(self).extends(old(self)),
            Self::dpad_step(
                final(self),
                old(self),
                profile_index as int,
                controller_type,
                set_index as int,
                *source,
            ),
    {
        proof {
            Self::lemma_extends_refl(self);
        }
        let profile = self.suggestions[profile_index].profile;
        let parent = match resolve(profile, source.path.as_str()) {
            Some(p) => p,
            None => {
                return ;
            },
        };
        match input_kind(parent.as_str()) {
            InputKind::TwoAxis => {},
            _ => {
                return ;
            },
        }
        let hand = match parse_hand_from_path(parent.as_str()) {
            Some(h) => h,
            None => {
                return ;
            },
        };
        let found = self.get_dpad_parent(
            profile_index,
            controller_type,
            set_index,
            parent.as_str(),
            source.parameters.sub_mode,
            hand,
        );
        let ghost s0 = *self;
        let actions = match found {
            Some(a) => a,
            None => {
                proof {
                    assert(Self::dpad_over(
                        self,
                        &s0,
                        old(self),
                        profile_index as int,
                        controller_type,
                        set_index as int,
                        *source,
                        parent@,
                        found,
                    ));
                }
                return ;
            },
        };
        let ghost p = profile_index as int;
        let mode = source.mode;
        self.bind_direction(
            profile_index,
            mode,
            &source.inputs.north,
            actions,
            DpadDirection::North,
            hand,
        );
        let ghost s1 = *self;
        proof {
            assert(Self::directions_step(&s0, &s0, p, *source, actions, hand, 0));
            Self::lemma_directions_next(&s1, &s0, &s0, p, *source, actions, hand, 0);
        }
        self.bind_direction(
            profile_index,
            mode,
            &source.inputs.east,
            actions,
            DpadDirection::East,
            hand,
        );
        let ghost s2 = *self;
        proof {
            Self::lemma_directions_next(&s2, &s1, &s0, p, *source, actions, hand, 1);
        }
        self.bind_direction(
            profile_index,
            mode,
            &source.inputs.south,
            actions,
            DpadDirection::South,
            hand,
        );
        let ghost s3 = *self;
        proof {
            Self::lemma_directions_next(&s3, &s2, &s0, p, *source, actions, hand, 2);
        }
        self.bind_direction(
            profile_index,
            mode,
            &source.inputs.west,
            actions,
            DpadDirection::West,
            hand,
        );
        let ghost s4 = *self;
        proof {
            Self::lemma_directions_next(&s4, &s3, &s0, p, *source, actions, hand, 3);
        }
        self.bind_direction(
            profile_index,
            mode,
            &source.inputs.center,
            actions,
            DpadDirection::Center,
            hand,
        );
        proof {
            Self::lemma_directions_next(self, &s4, &s0, p, *source, actions, hand, 4);
            Self::lemma_extends_trans(self, &s4, &s3);
            Self::lemma_extends_trans(self, &s3, &s2);
            Self::lemma_extends_trans(self, &s2, &s1);
            Self::lemma_extends_trans(self, &s1, &s0);
            Self::lemma_extends_trans(self, &s0, old(self));
            assert(Self::dpad_over(
                self,
                &s0,
                old(self),
                p,
                controller_type,
                set_index as int,
                *source,
                parent@,
                found,
            ));
        }
    }

    /// Binds one output of a source that is no dpad direction: the input
    /// is resolved for the profile, the binding is classified, and what
    /// its class asks for is added.
    ///
    /// A rejected binding changes nothing. A plain binding adds the one
    /// suggestion of the resolved input path for the runtime action of
    /// the action, and nothing else. A threshold is bound on the resolved
    /// input with the thresholds of the source; a click or a touch made
    /// from the pull is bound as a threshold on the pull, the touch with
    /// the smallest threshold; a toggle is bound on the resolved input;
    /// and a grab on the force and the value, as far as the profile
    /// offers them as analog inputs.
    pub fn bind_output(
        &mut self,
        profile_index: usize,
        set_index: usize,
        source: &SourceBinding,
        input: SourceInput,
        output: &Option<String>,
    )
        requires
            old(self).wf(),
            profile_index < old(self).suggestions@.len(),
            set_index < old(self).sets@.len(),
        ensures
            final(self).wf(),
            final(self).extends(old(self)),
            Self::output_step(
                final(self),
                old(self),
                profile_index as int,
                set_index as int,
                *source,
                input,
                *output,
            ),
    {
        proof {
            Self::lemma_extends_refl(self);
        }
        let name = match output {
            Some(n) => n,
            None => {
                return ;
            },
        };
        let lowered = to_lowercase(name.as_str());
        let action_index = match self.find_action(lowered.as_str()) {
            Some(i) => i,
            None => {
                return ;
            },
        };
        let profile = self.suggestions[profile_index].profile;
        let hand = parse_hand_from_path(source.path.as_str());
        let path = source.path.as_str();
        let target = match input {
            SourceInput::Click => resolve(profile, concat(path, "/click").as_str()),
            SourceInput::Touch => resolve(profile, concat(path, "/touch").as_str()),
            SourceInput::Pull => resolve(profile, concat(path, "/pull").as_str()),
            SourceInput::Force => resolve(profile, concat(path, "/force").as_str()),
            SourceInput::Position => resolve(profile, path),
            SourceInput::Grab => resolve(profile, concat(path, "/force").as_str()),
            SourceInput::Direction => None,
        };
        let stand_in = match input {
            SourceInput::Click => resolve(profile, concat(path, "/pull").as_str()),
            SourceInput::Touch => resolve(profile, concat(path, "/pull").as_str()),
            SourceInput::Grab => resolve(profile, concat(path, "/value").as_str()),
            _ => None,
        };
        let target_kind = match &target {
            Some(t) => Some(input_kind(t.as_str())),
            None => None,
        };
        let stand_in_kind = match &stand_in {
            Some(t) => Some(input_kind(t.as_str())),
            None => None,
        };
        let kind = self.actions[action_index].kind;
        let thresholds = source.parameters.click_activate_threshold.is_some()
            || source.parameters.click_deactivate_threshold.is_some();
        match classify(source.mode, input, kind, target_kind, stand_in_kind, thresholds) {
            BindingClass::Plain => {
                match target {
                    Some(t) => {
                        self.bind_plain(profile_index, action_index, t);
                    },
                    None => {},
                }
            },
            BindingClass::Threshold => {
                match target {
                    Some(t) => {
                        self.bind_threshold(
                            profile_index,
                            action_index,
                            set_index,
                            t,
                            source.parameters.click_activate_threshold,
                            source.parameters.click_deactivate_threshold,
                            hand,
                        );
                    },
                    None => {},
                }
            },
            BindingClass::ClickFromPull => {
                match stand_in {
                    Some(t) => {
                        self.bind_threshold(
                            profile_index,
                            action_index,
                            set_index,
                            t,
                            source.parameters.click_activate_threshold,
                            source.parameters.click_deactivate_threshold,
                            hand,
                        );
                    },
                    None => {},
                }
            },
            BindingClass::TouchFromPull => {
                match stand_in {
                    Some(t) => {
                        self.bind_threshold(
                            profile_index,
                            action_index,
                            set_index,
                            t,
                            Some(Fixed { raw: TOUCH_FROM_PULL_THRESHOLD }),
                            Some(Fixed { raw: TOUCH_FROM_PULL_THRESHOLD }),
                            hand,
                        );
                    },
                    None => {},
                }
            },
            BindingClass::Toggle => {
                match target {
                    Some(t) => {
                        self.bind_toggle(profile_index, action_index, set_index, t, hand);
                    },
                    None => {},
                }
            },
            BindingClass::Grab => {
                let force = match target {
                    Some(t) => match input_kind(t.as_str()) {
                        InputKind::Analog => Some(t),
                        _ => None,
                    },
                    None => None,
                };
                let value = match stand_in {
                    Some(t) => match input_kind(t.as_str()) {
                        InputKind::Analog => Some(t),
                        _ => None,
                    },
                    None => None,
                };
                self.bind_grab(
                    profile_index,
                    action_index,
                    set_index,
                    force,
                    value,
                    source.parameters,
                    hand,
                );
            },
            _ => {},
        }
    }

    /// Binds every output of a source: the directions of a dpad, or else
    /// the click, the touch, the pull, the force, the position and the
    /// grab, in this order. A source with a mode that is not supported
    /// changes nothing.
    pub fn process_source(
        &mut self,
        profile_index: usize,
        controller_type: ControllerType,
        set_index: usize,
        source: &SourceBinding,
    )
        requires
            old(self).wf(),
            profile_index < old(self).suggestions@.len(),
            set_index < old(self).sets@.len(),
        ensures
            final(self).wf(),
            final(self).extends(old(self)),
            Self::source_step(
                final(self),
                old(self),
                profile_index as int,
                controller_type,
                set_index as int,
                *source,
            ),
    {
        proof {
            Self::lemma_extends_refl(self);
        }
        match source.mode {
            SourceMode::Dpad => {
                self.bind_dpad(profile_index, controller_type, set_index, source);
                return ;
            },
            SourceMode::Other => {
                return ;
            },
            _ => {},
        }
        let ghost p = profile_index as int;
        let ghost set = set_index as int;
        let ghost s0 = *self;
        self.bind_output(profile_index, set_index, source, SourceInput::Click, &source.inputs.click);
        let ghost s1 = *self;
        proof {
            assert(Self::outputs_step(&s0, &s0, p, set, *source, 0));
            Self::lemma_outputs_next(&s1, &s0, &s0, p, set, *source, 0);
        }
        self.bind_output(profile_index, set_index, source, SourceInput::Touch, &source.inputs.touch);
        let ghost s2 = *self;
        proof {
            Self::lemma_outputs_next(&s2, &s1, &s0, p, set, *source, 1);
        }
        self.bind_output(profile_index, set_index, source, SourceInput::Pull, &source.inputs.pull);
        let ghost s3 = *self;
        proof {
            Self::lemma_outputs_next(&s3, &s2, &s0, p, set, *source, 2);
        }
        self.bind_output(profile_index, set_index, source, SourceInput::Force, &source.inputs.force);
        let ghost s4 = *self;
        proof {
            Self::lemma_outputs_next(&s4, &s3, &s0, p, set, *source, 3);
        }
        self.bind_output(
            profile_index,
            set_index,
            source,
            SourceInput::Position,
            &source.inputs.position,
        );
        let ghost s5 = *self;
        proof {
            Self::lemma_outputs_next(&s5, &s4, &s0, p, set, *source, 4);
        }
        self.bind_output(profile_index, set_index, source, SourceInput::Grab, &source.inputs.grab);
        proof {
            Self::lemma_outputs_next(self, &s5, &s0, p, set, *source, 5);
            Self::lemma_extends_trans(self, &s5, &s4);
            Self::lemma_extends_trans(self, &s4, &s3);
            Self::lemma_extends_trans(self, &s3, &s2);
            Self::lemma_extends_trans(self, &s2, &s1);
            Self::lemma_extends_trans(self, &s1, old(self));
        }
    }

    /// Binds a pose: the pose action that the binding names gets the type
    /// of pose that the path names, for the hand that the path names; what
    /// is bound for the other hand stays. Nothing changes when the binding
    /// names no pose action that is loaded, or when the path names no hand
    /// or no type of pose.
    pub fn bind_pose(&mut self, profile_index: usize, binding: &SimpleBinding)
        requires
            old(self).wf(),
            profile_index < old(self).suggestions@.len(),
        ensures
            final(self).wf(),
            final(self).extends(old(self)),
            Self::pose_step(final(self), old(self), profile_index as int, *binding),
    {
        proof {
            Self::lemma_extends_refl(self);
        }
        let profile = self.suggestions[profile_index].profile;
        let lowered = to_lowercase(binding.output.as_str());
        let action_index = match self.find_action(lowered.as_str()) {
            Some(i) => i,
            None => {
                return ;
            },
        };
        match self.actions[action_index].kind {
            ActionKind::Pose => {},
            _ => {
                return ;
            },
        }
        let hand = parse_hand_from_path(binding.path.as_str());
        let ty = pose_type(binding.path.as_str());
        match (hand, ty) {
            (Some(h), Some(t)) => {
                self.set_pose(action_index, profile, h, t);
            },
            _ => {},
        }
    }

    /// Binds a haptic output: the output path, as the profile offers it,
    /// is suggested for the haptic action that the binding names. Nothing
    /// changes when the binding names no haptic action that is loaded, or
    /// when the profile offers no haptic output for the path.
    pub fn bind_haptic(&mut self, profile_index: usize, binding: &SimpleBinding)
        requires
            old(self).wf(),
            profile_index < old(self).suggestions@.len(),
        ensures
            final(self).wf(),
            final(self).extends(old(self)),
            Self::haptic_step(final(self), old(self), profile_index as int, *binding),
    {
        proof {
            Self::lemma_extends_refl(self);
        }
        let profile = self.suggestions[profile_index].profile;
        let lowered = to_lowercase(binding.output.as_str());
        let action_index = match self.find_action(lowered.as_str()) {
            Some(i) => i,
            None => {
                return ;
            },
        };
        match self.actions[action_index].kind {
            ActionKind::Haptic => {},
            _ => {
                return ;
            },
        }
        match resolve(profile, binding.path.as_str()) {
            Some(path) => match input_kind(path.as_str()) {
                InputKind::Haptic => {
                    self.bind_plain(profile_index, action_index, path);
                },
                _ => {},
            },
            None => {},
        }
    }

    /// Binds what a binding file holds for one action set.
    fn process_set_binding(
        &mut self,
        profile_index: usize,
        controller_type: ControllerType,
        binding: &ActionSetBinding,
    )
        requires
            old(self).wf(),
            profile_index < old(self).suggestions@.len(),
        ensures
            final(self).wf(),
            final(self).extends(old(self)),
            Self::set_binding_step(
                final(self),
                old(self),
                profile_index as int,
                controller_type,
                *binding,
            ),
    {
        let lowered = to_lowercase(binding.set.as_str());
        let set_index = match self.find_set(lowered.as_str()) {
            Some(i) => i,
            None => {
                proof {
                    Self::lemma_extends_refl(self);
                }
                return ;
            },
        };
        let ghost p = profile_index as int;
        let ghost set = set_index as int;
        proof {
            Self::lemma_extends_refl(self);
        }
        let mut i: usize = 0;
        while i < binding.sources.len()
            invariant
                i <= binding.sources.len(),
                self.wf(),
                self.extends(old(self)),
                profile_index < self.suggestions@.len(),
                set_index < self.sets@.len(),
                p == profile_index as int,
                set == set_index as int,
                Self::sources_step(
                    self,
                    old(self),
                    p,
                    controller_type,
                    set,
                    binding.sources@,
                    i as int,
                ),
            decreases binding.sources.len() - i,
        {
            let ghost s = *self;
            self.process_source(profile_index, controller_type, set_index, &binding.sources[i]);
            proof {
                Self::lemma_extends_trans(self, &s, old(self));
                Self::lemma_sources_next(
                    self,
                    &s,
                    old(self),
                    p,
                    controller_type,
                    set,
                    binding.sources@,
                    i as int,
                );
            }
            i += 1;
        }
        let ghost with_sources = *self;
        let mut j: usize = 0;
        while j < binding.poses.len()
            invariant
                j <= binding.poses.len(),
                self.wf(),
                self.extends(old(self)),
                profile_index < self.suggestions@.len(),
                p == profile_index as int,
                Self::poses_step(self, &with_sources, p, binding.poses@, j as int),
            decreases binding.poses.len() - j,
        {
            let ghost s = *self;
            self.bind_pose(profile_index, &binding.poses[j]);
            proof {
                Self::lemma_extends_trans(self, &s, old(self));
                Self::lemma_poses_next(self, &s, &with_sources, p, binding.poses@, j as int);
            }
            j += 1;
        }
        let ghost with_poses = *self;
        let mut k: usize = 0;
        while k < binding.haptics.len()
            invariant
                k <= binding.haptics.len(),
                self.wf(),
                self.extends(old(self)),
                profile_index < self.suggestions@.len(),
                p == profile_index as int,
                Self::haptics_step(self, &with_poses, p, binding.haptics@, k as int),
            decreases binding.haptics.len() - k,
        {
            let ghost s = *self;
            self.bind_haptic(profile_index, &binding.haptics[k]);
            proof {
                Self::lemma_extends_trans(self, &s, old(self));
                Self::lemma_haptics_next(self, &s, &with_poses, p, binding.haptics@, k as int);
            }
            k += 1;
        }
        proof {
            assert(Self::set_binding_over(
                self,
                &with_sources,
                &with_poses,
                old(self),
                p,
                controller_type,
                set,
                *binding,
            ));
        }
    }

    /// Binds a whole binding file for the profile at `profile_index`.
    fn process_file(
        &mut self,
        profile_index: usize,
        controller_type: ControllerType,
        bindings: &Vec<ActionSetBinding>,
    )
        requires
            old(self).wf(),
            profile_index < old(self).suggestions@.len(),
        ensures
            final(self).wf(),
            final(self).extends(old(self)),
            Self::file_step(
                final(self),
                old(self),
                profile_index as int,
                controller_type,
                bindings@,
                bindings@.len() as int,
            ),
    {
        proof {
            Self::lemma_extends_refl(self);
        }
        let mut i: usize = 0;
        while i < bindings.len()
            invariant
                i <= bindings.len(),
                self.wf(),
                self.extends(old(self)),
                profile_index < self.suggestions@.len(),
                Self::file_step(
                    self,
                    old(self),
                    profile_index as int,
                    controller_type,
                    bindings@,
                    i as int,
                ),
            decreases bindings.len() - i,
        {
            let ghost s = *self;
            self.process_set_binding(profile_index, controller_type, &bindings[i]);
            proof {
                Self::lemma_extends_trans(self, &s, old(self));
                Self::lemma_file_next(
                    self,
                    &s,
                    old(self),
                    profile_index as int,
                    controller_type,
                    bindings@,
                    i as int,
                );
            }
            i += 1;
        }
    }

    /// True when the info action is suggested, for the profile at
    /// `profile_index`, for each of the first `n` paths that the profile
    /// offers and that give a boolean or an analog value.
    pub open spec fn info_bound(&self, profile_index: int, n: int) -> bool {
        forall|j: int|
            0 <= j < n && j < self.suggestions@[profile_index].profile.legal().len()
                && wide_input(
                (#[trigger] self.suggestions@[profile_index].profile.legal()[j])@,
            ) ==> self.suggested(
                profile_index,
                self.info_action,
                self.suggestions@[profile_index].profile.legal()[j]@,
            )
    }

    /// The info action stays bound while bindings are added.
    pub proof fn lemma_info_kept(before: &LoadedActions, after: &LoadedActions, p: int, n: int)
        requires
            after.extends(before),
            0 <= p < before.suggestions@.len(),
            before.info_bound(p, n),
        ensures
            after.info_bound(p, n),
    {
        let legal = before.suggestions@[p].profile.legal();
        assert forall|j: int| 0 <= j < n && j < legal.len() && wide_input(
            (#[trigger] after.suggestions@[p].profile.legal()[j])@,
        ) implies after.suggested(p, after.info_action, legal[j]@) by {
            assert(before.suggested(p, before.info_action, legal[j]@));
            Self::lemma_kept(before, after, Seq::empty(), p, before.info_action, legal[j]@);
        }
    }

    /// Suggests, for the profile at `profile_index`, every click, touch,
    /// value, force and single axis that the profile offers for the info
    /// action, so that any use of the controller keeps the runtime
    /// reporting its profile.
    pub fn suggest_info(&mut self, profile_index: usize)
        requires
            old(self).wf(),
            profile_index < old(self).suggestions@.len(),
        ensures
            final(self).wf(),
            final(self).extends(old(self)),
            Self::info_step(final(self), old(self), profile_index as int),
    {
        let profile = self.suggestions[profile_index].profile;
        let legal = profile.legal_paths();
        let info: u32 = self.info_action;
        proof {
            Self::lemma_extends_refl(self);
        }
        proof {
            assert(self.suggestion_views(profile_index as int) =~= self.suggestion_views(
                profile_index as int,
            ) + info_suggestions(legal@, info, 0));
        }
        let mut i: usize = 0;
        while i < legal.len()
            invariant
                i <= legal.len(),
                legal@ == profile.legal(),
                self.wf(),
                self.extends(old(self)),
                profile_index < self.suggestions@.len(),
                self.suggestions@[profile_index as int].profile == profile,
                info == self.info_action,
                info == old(self).info_action,
                self.runtime_sets@ == old(self).runtime_sets@,
                self.runtime_actions@ == old(self).runtime_actions@,
                self.actions@ == old(self).actions@,
                self.keyed@ == old(self).keyed@,
                self.info_bound(profile_index as int, i as int),
                forall|p: int|
                    0 <= p < old(self).suggestions@.len() && p != profile_index
                        ==> #[trigger] self.suggestions@[p] == old(self).suggestions@[p],
                self.suggestion_views(profile_index as int) == old(self).suggestion_views(
                    profile_index as int,
                ) + info_suggestions(legal@, info, i as int),
            decreases legal.len() - i,
        {
            let ghost s = *self;
            let bind = match input_kind(legal[i]) {
                InputKind::Boolean | InputKind::Analog => true,
                _ => false,
            };
            if bind {
                assert(is_legal(legal@[i as int]@, profile.legal()));
                self.suggest(profile_index, info, String::from_str(legal[i]));
                proof {
                    Self::lemma_extends_trans(self, &s, old(self));
                    Self::lemma_info_kept(&s, self, profile_index as int, i as int);
                    let list = self.suggestions@[profile_index as int].bindings@;
                    assert(list[list.len() - 1].action == info && list[list.len() - 1].path@
                        == legal@[i as int]@);
                    assert(self.suggested(profile_index as int, info, legal@[i as int]@));
                    let added = SuggestionView { action: info, path: legal@[i as int]@ };
                    assert(self.suggestion_views(profile_index as int) =~= s.suggestion_views(
                        profile_index as int,
                    ).push(added));
                    assert(self.suggestion_views(profile_index as int) =~= old(
                        self,
                    ).suggestion_views(profile_index as int) + info_suggestions(
                        legal@,
                        info,
                        i as int,
                    ).push(added));
                }
            }
            i += 1;
        }
    }

    /// True when the info action is suggested, for every supported
    /// profile, for every path that the profile offers and that gives a
    /// boolean or an analog value.
    pub open spec fn info_bound_wide(&self) -> bool {
        forall|p: int|
            0 <= p < self.suggestions@.len() ==> #[trigger] self.info_bound(
                p,
                self.suggestions@[p].profile.legal().len() as int,
            )
    }

    /// Binds every binding file of the manifest for every supported
    /// profile that is filled from its controller type, and suggests the
    /// info action on every supported profile.
    pub fn bind_profiles(&mut self, manifest: &ActionManifest)
        requires
            old(self).wf(),
        ensures
            final(self).wf(),
            final(self).extends(old(self)),
            final(self).info_bound_wide(),
            Self::profiles_step(
                final(self),
                old(self),
                *manifest,
                Profiles::list().len() as int,
            ),
    {
        let profiles = Profiles::get();
        proof {
            Self::lemma_extends_refl(self);
        }
        let mut p: usize = 0;
        while p < profiles.len()
            invariant
                p <= profiles.len(),
                profiles@ == Profiles::list(),
                self.wf(),
                self.extends(old(self)),
                forall|q: int|
                    0 <= q < p ==> #[trigger] self.info_bound(
                        q,
                        self.suggestions@[q].profile.legal().len() as int,
                    ),
                Self::profiles_step(self, old(self), *manifest, p as int),
            decreases profiles.len() - p,
        {
            let controller_type = profiles[p].0;
            let ghost outer = *self;
            let mut f: usize = 0;
            while f < manifest.default_bindings.len()
                invariant
                    f <= manifest.default_bindings.len(),
                    p < profiles.len(),
                    profiles@ == Profiles::list(),
                    controller_type == Profiles::list()[p as int].0,
                    self.wf(),
                    self.extends(old(self)),
                    self.extends(&outer),
                    Self::files_step(
                        self,
                        &outer,
                        p as int,
                        controller_type,
                        manifest.default_bindings@,
                        f as int,
                    ),
                decreases manifest.default_bindings.len() - f,
            {
                let entry = &manifest.default_bindings[f];
                let lowered = to_lowercase(entry.controller_type.as_str());
                let file_type = ControllerType::from_name(lowered.as_str());
                let known = match file_type {
                    ControllerType::Unknown => false,
                    _ => true,
                };
                let ghost s = *self;
                if known && file_type.same(controller_type) {
                    match &entry.bindings {
                        Some(bindings) => {
                            self.process_file(p, controller_type, bindings);
                            proof {
                                Self::lemma_extends_trans(self, &s, old(self));
                                Self::lemma_extends_trans(self, &s, &outer);
                            }
                        },
                        None => {},
                    }
                }
                proof {
                    Self::lemma_files_next(
                        self,
                        &s,
                        &outer,
                        p as int,
                        controller_type,
                        manifest.default_bindings@,
                        f as int,
                    );
                }
                f += 1;
            }
            let ghost s = *self;
            self.suggest_info(p);
            proof {
                Self::lemma_extends_trans(self, &s, old(self));
                Self::lemma_extends_trans(self, &s, &outer);
                assert forall|q: int| 0 <= q < p implies #[trigger] self.info_bound(
                    q,
                    self.suggestions@[q].profile.legal().len() as int,
                ) by {
                    Self::lemma_info_kept(
                        &outer,
                        self,
                        q,
                        outer.suggestions@[q].profile.legal().len() as int,
                    );
                }
                assert(Self::profile_step(self, &outer, p as int, *manifest));
                Self::lemma_profiles_next(self, &outer, old(self), *manifest, p as int);
            }
            p += 1;
        }
    }
}

} // verus!
