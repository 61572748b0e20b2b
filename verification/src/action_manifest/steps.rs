//! What each step of binding a manifest does to what is loaded, as a
//! relation between the state before the step and the state after it.
//!
//! A binding file is worked off source by source and output by output, and
//! every step sees what the steps before it have created. The relations
//! here follow that order: a relation over a list holds when there is a
//! state after each item that the relation of the item leads to.

use crate::action_manifest::ActionKind;
use crate::action_manifest::ActionManifest;
use crate::action_manifest::ActionSetBinding;
use crate::action_manifest::BoundPose;
use crate::action_manifest::DefaultBinding;
use crate::action_manifest::DpadSubMode;
use crate::action_manifest::LoadedActions;
use crate::action_manifest::SimpleBinding;
use crate::action_manifest::SourceBinding;
use crate::action_manifest::SourceInputs;
use crate::action_manifest::SourceMode;
use crate::action_manifest::bindings::analog_only;
use crate::action_manifest::bindings::dpad_activator_key;
use crate::action_manifest::bindings::dpad_activator_path;
use crate::action_manifest::bindings::dpad_haptic_key;
use crate::action_manifest::bindings::dpad_parent_key;
use crate::action_manifest::bindings::haptic_output;
use crate::action_manifest::bindings::info_suggestions;
use crate::action_manifest::bindings::uses_force;
use crate::action_manifest::classify::BindingClass;
use crate::action_manifest::classify::InputKind;
use crate::action_manifest::classify::SourceInput;
use crate::action_manifest::classify::TOUCH_FROM_PULL_THRESHOLD;
use crate::action_manifest::classify::kind_of_input;
use crate::action_manifest::classify::pose_type_of;
use crate::action_manifest::classify::resolved;
use crate::action_manifest::classify::resolved_path;
use crate::action_manifest::classify::stand_in_raw;
use crate::action_manifest::classify::target_raw;
use crate::action_manifest::names::hand_of;
use crate::custom_bindings::BindingData;
use crate::custom_bindings::BindingState;
use crate::custom_bindings::BindingType;
use crate::custom_bindings::DpadActions;
use crate::custom_bindings::DpadData;
use crate::custom_bindings::DpadDirection;
use crate::fixed::Fixed;
use crate::legacy::LEGACY_FIRST_ACTION;
use crate::profiles::ControllerType;
use crate::profiles::Profile;
use crate::profiles::Profiles;
use crate::profiles::is_legal;
use crate::runtime::Hand;
use crate::runtime::RuntimeKind;
use crate::strings::lowercase_of;
use vstd::prelude::*;

verus! {

/// The inputs of a source that is no dpad, in the order in which their
/// outputs are bound.
pub open spec fn input_at(k: int) -> SourceInput {
    if k == 0 {
        SourceInput::Click
    } else if k == 1 {
        SourceInput::Touch
    } else if k == 2 {
        SourceInput::Pull
    } else if k == 3 {
        SourceInput::Force
    } else if k == 4 {
        SourceInput::Position
    } else {
        SourceInput::Grab
    }
}

/// The output that a source gives for the input at `k`.
pub open spec fn output_at(inputs: SourceInputs, k: int) -> Option<String> {
    if k == 0 {
        inputs.click
    } else if k == 1 {
        inputs.touch
    } else if k == 2 {
        inputs.pull
    } else if k == 3 {
        inputs.force
    } else if k == 4 {
        inputs.position
    } else {
        inputs.grab
    }
}

/// The directions of a dpad, in the order in which their outputs are
/// bound.
pub open spec fn direction_at(k: int) -> DpadDirection {
    if k == 0 {
        DpadDirection::North
    } else if k == 1 {
        DpadDirection::East
    } else if k == 2 {
        DpadDirection::South
    } else if k == 3 {
        DpadDirection::West
    } else {
        DpadDirection::Center
    }
}

/// The output that a dpad source gives for the direction at `k`.
pub open spec fn direction_output_at(inputs: SourceInputs, k: int) -> Option<String> {
    if k == 0 {
        inputs.north
    } else if k == 1 {
        inputs.east
    } else if k == 2 {
        inputs.south
    } else if k == 3 {
        inputs.west
    } else {
        inputs.center
    }
}

/// True when a default binding of a manifest fills a profile that is
/// filled from `controller_type`: the name of its controller type, in
/// lowercase, is the name of that type, and its file could be read.
pub open spec fn fills(entry: DefaultBinding, controller_type: ControllerType) -> bool {
    &&& ControllerType::named(lowercase_of(entry.controller_type@)) != ControllerType::Unknown
    &&& ControllerType::named(lowercase_of(entry.controller_type@)) == controller_type
    &&& entry.bindings.is_some()
}

impl LoadedActions {
    /// True when `now` is `before` with one output of a source bound
    /// that is no dpad direction.
    ///
    /// A rejected binding changes nothing. A plain binding adds the one
    /// suggestion of the resolved input path for the runtime action of
    /// the action, and nothing else. A threshold is bound on the resolved
    /// input with the thresholds of the source; a click or a touch made
    /// from the pull is bound as a threshold on the pull, the touch with
    /// the smallest threshold; a toggle is bound on the resolved input;
    /// and a grab on the force and the value, as far as the profile
    /// offers them as analog inputs.
    pub open spec fn output_step(
        now: &LoadedActions,
        before: &LoadedActions,
        profile_index: int,
        set_index: int,
        source: SourceBinding,
        input: SourceInput,
        output: Option<String>,
    ) -> bool {
        let class = before.output_class(profile_index, source, input, output);
        let profile = before.suggestions@[profile_index].profile;
        let i = before.position_of(lowercase_of(output.unwrap()@)).unwrap();
        let hand = hand_of(source.path@);
        let target = resolved_path(profile, target_raw(source.path@, input));
        let stand_in = resolved_path(profile, stand_in_raw(source.path@, input));
        &&& now.wf()
        &&& now.extends(before)
        &&& class == BindingClass::Rejected || class == BindingClass::Dpad ==> now.same_as(before)
        &&& class == BindingClass::Plain ==> {
            &&& before.actions@[i].action.is_some()
            &&& Self::one_more(
                now,
                before,
                profile_index,
                before.actions@[i].action.unwrap(),
                target.unwrap(),
            )
            &&& target.is_some()
            &&& now.runtime_sets@ == before.runtime_sets@
            &&& now.runtime_actions@ == before.runtime_actions@
            &&& now.actions@ == before.actions@
            &&& now.keyed@ == before.keyed@
            &&& forall|p: int|
                0 <= p < before.suggestions@.len() && p != profile_index
                    ==> #[trigger] now.suggestions@[p] == before.suggestions@[p]
        }
        &&& class == BindingClass::Threshold ==> Self::threshold_bound(
            now,
            before,
            profile_index,
            i,
            set_index,
            target.unwrap(),
            source.parameters.click_activate_threshold,
            source.parameters.click_deactivate_threshold,
            hand,
        )
        &&& class == BindingClass::ClickFromPull ==> Self::threshold_bound(
            now,
            before,
            profile_index,
            i,
            set_index,
            stand_in.unwrap(),
            source.parameters.click_activate_threshold,
            source.parameters.click_deactivate_threshold,
            hand,
        )
        &&& class == BindingClass::TouchFromPull ==> Self::threshold_bound(
            now,
            before,
            profile_index,
            i,
            set_index,
            stand_in.unwrap(),
            Some(Fixed { raw: TOUCH_FROM_PULL_THRESHOLD }),
            Some(Fixed { raw: TOUCH_FROM_PULL_THRESHOLD }),
            hand,
        )
        &&& class == BindingClass::Toggle ==> Self::toggle_bound(
            now,
            before,
            profile_index,
            i,
            set_index,
            target.unwrap(),
            hand,
        )
        &&& class == BindingClass::Grab ==> Self::grab_bound(
            now,
            before,
            profile_index,
            i,
            set_index,
            analog_only(target),
            analog_only(stand_in),
            source.parameters,
            hand,
        )
    }

    /// True when `now` is `before` with the outputs of the first `n`
    /// inputs of a source bound, one after the other.
    pub open spec fn outputs_step(
        now: &LoadedActions,
        before: &LoadedActions,
        profile_index: int,
        set_index: int,
        source: SourceBinding,
        n: int,
    ) -> bool
        decreases n,
    {
        if n <= 0 {
            *now == *before
        } else {
            exists|mid: LoadedActions|
                Self::outputs_step(&mid, before, profile_index, set_index, source, n - 1)
                    && #[trigger] Self::output_step(
                    now,
                    &mid,
                    profile_index,
                    set_index,
                    source,
                    input_at(n - 1),
                    output_at(source.inputs, n - 1),
                )
        }
    }

    /// True when `with_parent` is `before` with the parent of a dpad
    /// found or created, `with_activator` is that with the activator,
    /// and `now` is that with the haptic output; each is the step before
    /// it where it has nothing to find, and `found` is what was found.
    pub open spec fn parent_over(
        now: &LoadedActions,
        with_parent: &LoadedActions,
        with_activator: &LoadedActions,
        before: &LoadedActions,
        profile_index: int,
        controller_type: ControllerType,
        set_index: int,
        parent: Seq<char>,
        sub_mode: Option<DpadSubMode>,
        hand: Hand,
        found: Option<DpadActions>,
    ) -> bool {
        let set_name = before.sets@[set_index].name@;
        let legal = before.suggestions@[profile_index].profile.legal();
        let parent_key = dpad_parent_key(parent, set_name);
        let force = uses_force(controller_type, parent);
        let activator = dpad_activator_path(parent, sub_mode, force);
        let has_activator = activator.is_some() && is_legal(activator.unwrap(), legal);
        let has_haptic = force && is_legal(haptic_output(hand)@, legal);
        let xy = before.obtainable(parent_key, RuntimeKind::Vector2);
        let click_or_touch = if has_activator {
            with_parent.obtainable(
                dpad_activator_key(activator.unwrap(), set_name),
                RuntimeKind::Float,
            )
        } else {
            None
        };
        let haptic = if has_haptic {
            with_activator.obtainable(dpad_haptic_key(parent, set_name), RuntimeKind::Haptic)
        } else {
            None
        };
        &&& Self::shared_step(
            with_parent,
            before,
            profile_index,
            set_index,
            parent_key,
            RuntimeKind::Vector2,
            parent,
            xy,
        )
        &&& match xy {
            None => *with_activator == *with_parent && *now == *with_parent && found.is_none(),
            Some(x) => {
                &&& if has_activator {
                    Self::shared_step(
                        with_activator,
                        with_parent,
                        profile_index,
                        set_index,
                        dpad_activator_key(activator.unwrap(), set_name),
                        RuntimeKind::Float,
                        activator.unwrap(),
                        click_or_touch,
                    )
                } else {
                    *with_activator == *with_parent
                }
                &&& if has_haptic {
                    Self::shared_step(
                        now,
                        with_activator,
                        profile_index,
                        set_index,
                        dpad_haptic_key(parent, set_name),
                        RuntimeKind::Haptic,
                        haptic_output(hand)@,
                        haptic,
                    )
                } else {
                    *now == *with_activator
                }
                &&& found == Some(DpadActions { xy: x, click_or_touch, haptic })
            },
        }
    }

    /// True when `now` is `before` with the runtime actions of a dpad
    /// found or created, the parent first, then the activator, then the
    /// haptic output, and `found` is what was found.
    ///
    /// The parent is shared by every dpad over the same input in the same
    /// set: it is the action found under `dpad_parent_key`, created if
    /// there is none. The activator is the action under
    /// `dpad_activator_key` for the path that `dpad_activator_path` names,
    /// if the profile offers that path. The haptic output of the hand is
    /// added for a pad that is activated by force, if the profile offers
    /// it. Nothing is found when the parent cannot be had.
    pub open spec fn parent_step(
        now: &LoadedActions,
        before: &LoadedActions,
        profile_index: int,
        controller_type: ControllerType,
        set_index: int,
        parent: Seq<char>,
        sub_mode: Option<DpadSubMode>,
        hand: Hand,
        found: Option<DpadActions>,
    ) -> bool {
        let set_name = before.sets@[set_index].name@;
        let legal = before.suggestions@[profile_index].profile.legal();
        let parent_key = dpad_parent_key(parent, set_name);
        let force = uses_force(controller_type, parent);
        let activator = dpad_activator_path(parent, sub_mode, force);
        &&& now.wf()
        &&& now.extends(before)
        &&& now.actions@ == before.actions@
        &&& exists|with_parent: LoadedActions, with_activator: LoadedActions| #[trigger]
            Self::parent_over(
                now,
                &with_parent,
                &with_activator,
                before,
                profile_index,
                controller_type,
                set_index,
                parent,
                sub_mode,
                hand,
                found,
            )
        &&& found.is_some() == (match before.shared(parent_key) {
            Some(id) => before.runtime_actions@[id as int].kind == RuntimeKind::Vector2,
            None => before.runtime_actions@.len() < LEGACY_FIRST_ACTION,
        })
        &&& found.is_none() ==> now.runtime_actions@ == before.runtime_actions@ && now.keyed@
            == before.keyed@ && now.suggestions@ == before.suggestions@
        &&& found matches Some(a) ==> {
            &&& before.shared(parent_key).is_some() ==> before.shared(parent_key) == Some(a.xy)
            &&& now.shared(parent_key) == Some(a.xy)
            &&& a.xy < now.runtime_actions@.len()
            &&& now.runtime_actions@[a.xy as int].kind == RuntimeKind::Vector2
            &&& now.suggested(profile_index, a.xy, parent)
            &&& a.click_or_touch matches Some(c) ==> {
                &&& activator.is_some()
                &&& is_legal(activator.unwrap(), legal)
                &&& now.shared(dpad_activator_key(activator.unwrap(), set_name)) == Some(c)
                &&& c < now.runtime_actions@.len()
                &&& now.runtime_actions@[c as int].kind == RuntimeKind::Float
                &&& now.suggested(profile_index, c, activator.unwrap())
            }
            &&& activator.is_none() || !is_legal(activator.unwrap(), legal)
                ==> a.click_or_touch.is_none()
            &&& a.haptic matches Some(h) ==> {
                &&& force
                &&& is_legal(haptic_output(hand)@, legal)
                &&& now.shared(dpad_haptic_key(parent, set_name)) == Some(h)
                &&& h < now.runtime_actions@.len()
                &&& now.runtime_actions@[h as int].kind == RuntimeKind::Haptic
                &&& now.suggested(profile_index, h, haptic_output(hand)@)
            }
            &&& !force || !is_legal(haptic_output(hand)@, legal) ==> a.haptic.is_none()
        }
    }

    /// True when `now` is `before` with one direction of a dpad attached,
    /// for the hand, to the boolean action that `output` names. Nothing
    /// has changed for an output that is not there or that names no
    /// boolean action.
    pub open spec fn direction_step(
        now: &LoadedActions,
        before: &LoadedActions,
        profile_index: int,
        mode: SourceMode,
        output: Option<String>,
        actions: DpadActions,
        direction: DpadDirection,
        hand: Hand,
    ) -> bool {
        &&& now.wf()
        &&& now.extends(before)
        &&& now.runtime_sets@ == before.runtime_sets@
        &&& now.runtime_actions@ == before.runtime_actions@
        &&& now.suggestions@ == before.suggestions@
        &&& now.keyed@ == before.keyed@
        &&& before.direction_class(mode, output) != BindingClass::Dpad ==> now.same_as(before)
        &&& before.direction_class(mode, output) == BindingClass::Dpad ==> Self::bound(
            now,
            before,
            before.position_of(lowercase_of(output.unwrap()@)).unwrap(),
            before.suggestions@[profile_index].profile,
            Some(
                BindingData {
                    ty: BindingType::Dpad(
                        DpadData {
                            actions,
                            direction,
                            last_state: false,
                            active: false,
                            changed: false,
                        },
                    ),
                    hand,
                    last_state: BindingState::Unsynced,
                },
            ),
            before.actions@[before.position_of(lowercase_of(output.unwrap()@)).unwrap()].extra,
        )
    }

    /// True when `now` is `before` with the first `n` directions of a
    /// dpad attached, one after the other.
    pub open spec fn directions_step(
        now: &LoadedActions,
        before: &LoadedActions,
        profile_index: int,
        source: SourceBinding,
        actions: DpadActions,
        hand: Hand,
        n: int,
    ) -> bool
        decreases n,
    {
        if n <= 0 {
            *now == *before
        } else {
            exists|mid: LoadedActions|
                Self::directions_step(&mid, before, profile_index, source, actions, hand, n - 1)
                    && #[trigger] Self::direction_step(
                    now,
                    &mid,
                    profile_index,
                    source.mode,
                    direction_output_at(source.inputs, n - 1),
                    actions,
                    direction_at(n - 1),
                    hand,
                )
        }
    }

    /// True when `with_parent` is `before` with the runtime actions of
    /// the dpad over `parent`, and `now` is `with_parent` with the five
    /// directions attached; or the parent cannot be had, and `now` is
    /// `with_parent`.
    pub open spec fn dpad_over(
        now: &LoadedActions,
        with_parent: &LoadedActions,
        before: &LoadedActions,
        profile_index: int,
        controller_type: ControllerType,
        set_index: int,
        source: SourceBinding,
        parent: Seq<char>,
        found: Option<DpadActions>,
    ) -> bool {
        let hand = hand_of(parent).unwrap();
        &&& Self::parent_step(
            with_parent,
            before,
            profile_index,
            controller_type,
            set_index,
            parent,
            source.parameters.sub_mode,
            hand,
            found,
        )
        &&& match found {
            None => *now == *with_parent,
            Some(actions) => Self::directions_step(
                now,
                with_parent,
                profile_index,
                source,
                actions,
                hand,
                5,
            ),
        }
    }

    /// True when `now` is `before` with the directions of a dpad source
    /// bound: the runtime actions of the dpad are found or created, and
    /// each direction that has an output is attached to its action.
    /// Nothing has changed when the profile offers no two-axis input
    /// under a hand for the path of the source.
    pub open spec fn dpad_step(
        now: &LoadedActions,
        before: &LoadedActions,
        profile_index: int,
        controller_type: ControllerType,
        set_index: int,
        source: SourceBinding,
    ) -> bool {
        let parent = resolved(before.suggestions@[profile_index].profile, source.path@);
        if parent.is_none() || kind_of_input(parent.unwrap()) != InputKind::TwoAxis || hand_of(
            parent.unwrap(),
        ).is_none() {
            *now == *before
        } else {
            exists|with_parent: LoadedActions, found: Option<DpadActions>| #[trigger]
                Self::dpad_over(
                    now,
                    &with_parent,
                    before,
                    profile_index,
                    controller_type,
                    set_index,
                    source,
                    parent.unwrap(),
                    found,
                )
        }
    }

    /// True when `now` is `before` with every output of a source bound:
    /// the directions of a dpad, or else the click, the touch, the pull,
    /// the force, the position and the grab, in this order. A source with
    /// a mode that is not supported changes nothing.
    pub open spec fn source_step(
        now: &LoadedActions,
        before: &LoadedActions,
        profile_index: int,
        controller_type: ControllerType,
        set_index: int,
        source: SourceBinding,
    ) -> bool {
        match source.mode {
            SourceMode::Dpad => Self::dpad_step(
                now,
                before,
                profile_index,
                controller_type,
                set_index,
                source,
            ),
            SourceMode::Other => *now == *before,
            _ => Self::outputs_step(now, before, profile_index, set_index, source, 6),
        }
    }

    /// One more output bound after the first `n` makes the first
    /// `n + 1`.
    pub proof fn lemma_outputs_next(
        now: &LoadedActions,
        mid: &LoadedActions,
        before: &LoadedActions,
        profile_index: int,
        set_index: int,
        source: SourceBinding,
        n: int,
    )
        requires
            0 <= n < 6,
            Self::outputs_step(mid, before, profile_index, set_index, source, n),
            Self::output_step(
                now,
                mid,
                profile_index,
                set_index,
                source,
                input_at(n),
                output_at(source.inputs, n),
            ),
        ensures
            Self::outputs_step(now, before, profile_index, set_index, source, n + 1),
    {
        let m = n + 1;
        assert(Self::outputs_step(mid, before, profile_index, set_index, source, m - 1));
    }

    /// One more direction attached after the first `n` makes the first
    /// `n + 1`.
    pub proof fn lemma_directions_next(
        now: &LoadedActions,
        mid: &LoadedActions,
        before: &LoadedActions,
        profile_index: int,
        source: SourceBinding,
        actions: DpadActions,
        hand: Hand,
        n: int,
    )
        requires
            0 <= n < 5,
            Self::directions_step(mid, before, profile_index, source, actions, hand, n),
            Self::direction_step(
                now,
                mid,
                profile_index,
                source.mode,
                direction_output_at(source.inputs, n),
                actions,
                direction_at(n),
                hand,
            ),
        ensures
            Self::directions_step(now, before, profile_index, source, actions, hand, n + 1),
    {
        let m = n + 1;
        assert(Self::directions_step(mid, before, profile_index, source, actions, hand, m - 1));
    }
    /// True when `now` is `before` with the first `n` sources of a list
    /// bound, one after the other.
    pub open spec fn sources_step(
        now: &LoadedActions,
        before: &LoadedActions,
        profile_index: int,
        controller_type: ControllerType,
        set_index: int,
        sources: Seq<SourceBinding>,
        n: int,
    ) -> bool
        decreases n,
    {
        if n <= 0 {
            *now == *before
        } else {
            exists|mid: LoadedActions|
                Self::sources_step(
                    &mid,
                    before,
                    profile_index,
                    controller_type,
                    set_index,
                    sources,
                    n - 1,
                ) && #[trigger] Self::source_step(
                    now,
                    &mid,
                    profile_index,
                    controller_type,
                    set_index,
                    sources[n - 1],
                )
        }
    }

    /// One more source bound after the first `n` makes the first `n + 1`.
    pub proof fn lemma_sources_next(
        now: &LoadedActions,
        mid: &LoadedActions,
        before: &LoadedActions,
        profile_index: int,
        controller_type: ControllerType,
        set_index: int,
        sources: Seq<SourceBinding>,
        n: int,
    )
        requires
            0 <= n < sources.len(),
            Self::sources_step(mid, before, profile_index, controller_type, set_index, sources, n),
            Self::source_step(now, mid, profile_index, controller_type, set_index, sources[n]),
        ensures
            Self::sources_step(
                now,
                before,
                profile_index,
                controller_type,
                set_index,
                sources,
                n + 1,
            ),
    {
        let m = n + 1;
        assert(Self::sources_step(
            mid,
            before,
            profile_index,
            controller_type,
            set_index,
            sources,
            m - 1,
        ));
    }

    /// True when `now` is `before` with a pose bound: the pose action
    /// that the binding names has the type of pose that the path names,
    /// for the hand that the path names; what was bound for the other
    /// hand stays. Nothing has changed when the binding names no pose
    /// action that is loaded, or when the path names no hand or no type
    /// of pose.
    pub open spec fn pose_step(
        now: &LoadedActions,
        before: &LoadedActions,
        profile_index: int,
        binding: SimpleBinding,
    ) -> bool {
        let found = before.position_of(lowercase_of(binding.output@));
        let hand = hand_of(binding.path@);
        let ty = pose_type_of(binding.path@);
        let profile = before.suggestions@[profile_index].profile;
        &&& now.wf()
        &&& now.extends(before)
        &&& now.runtime_sets@ == before.runtime_sets@
        &&& now.runtime_actions@ == before.runtime_actions@
        &&& now.suggestions@ == before.suggestions@
        &&& now.keyed@ == before.keyed@
        &&& if found.is_some() && before.actions@[found.unwrap()].kind == ActionKind::Pose
            && hand.is_some() && ty.is_some() {
            let i = found.unwrap();
            let bound = match before.pose_of(i, profile) {
                Some(p) => p,
                None => BoundPose { left: None, right: None },
            };
            &&& now.pose_of(i, profile) == Some(
                match hand.unwrap() {
                    Hand::Left => BoundPose { left: ty, right: bound.right },
                    Hand::Right => BoundPose { left: bound.left, right: ty },
                },
            )
            &&& forall|q: Profile|
                q != profile ==> #[trigger] now.pose_of(i, q) == before.pose_of(i, q)
            &&& now.actions@[i].extra == before.actions@[i].extra
            &&& now.actions@[i].bindings == before.actions@[i].bindings
            &&& forall|j: int|
                0 <= j < before.actions@.len() && j != i ==> #[trigger] now.actions@[j]
                    == before.actions@[j]
        } else {
            now.same_as(before)
        }
    }

    /// True when `now` is `before` with the first `n` poses of a list
    /// bound, one after the other.
    pub open spec fn poses_step(
        now: &LoadedActions,
        before: &LoadedActions,
        profile_index: int,
        poses: Seq<SimpleBinding>,
        n: int,
    ) -> bool
        decreases n,
    {
        if n <= 0 {
            *now == *before
        } else {
            exists|mid: LoadedActions|
                Self::poses_step(&mid, before, profile_index, poses, n - 1)
                    && #[trigger] Self::pose_step(
                    now,
                    &mid,
                    profile_index,
                    poses[n - 1],
                )
        }
    }

    /// One more pose bound after the first `n` makes the first `n + 1`.
    pub proof fn lemma_poses_next(
        now: &LoadedActions,
        mid: &LoadedActions,
        before: &LoadedActions,
        profile_index: int,
        poses: Seq<SimpleBinding>,
        n: int,
    )
        requires
            0 <= n < poses.len(),
            Self::poses_step(mid, before, profile_index, poses, n),
            Self::pose_step(now, mid, profile_index, poses[n]),
        ensures
            Self::poses_step(now, before, profile_index, poses, n + 1),
    {
        let m = n + 1;
        assert(Self::poses_step(mid, before, profile_index, poses, m - 1));
    }

    /// True when `now` is `before` with a haptic output bound: the
    /// output path, as the profile offers it, is suggested for the haptic
    /// action that the binding names, and nothing else is added. Nothing
    /// has changed when the binding names no haptic action that is
    /// loaded, or when the profile offers no haptic output for the path.
    pub open spec fn haptic_step(
        now: &LoadedActions,
        before: &LoadedActions,
        profile_index: int,
        binding: SimpleBinding,
    ) -> bool {
        let found = before.position_of(lowercase_of(binding.output@));
        let profile = before.suggestions@[profile_index].profile;
        let path = resolved(profile, binding.path@);
        &&& now.wf()
        &&& now.extends(before)
        &&& now.runtime_sets@ == before.runtime_sets@
        &&& now.runtime_actions@ == before.runtime_actions@
        &&& now.actions@ == before.actions@
        &&& now.keyed@ == before.keyed@
        &&& if found.is_some() && before.actions@[found.unwrap()].kind == ActionKind::Haptic
            && path.is_some() && kind_of_input(path.unwrap()) == InputKind::Haptic {
            &&& before.actions@[found.unwrap()].action.is_some()
            &&& Self::one_more(
                now,
                before,
                profile_index,
                before.actions@[found.unwrap()].action.unwrap(),
                path.unwrap(),
            )
            &&& forall|p: int|
                0 <= p < before.suggestions@.len() && p != profile_index
                    ==> #[trigger] now.suggestions@[p] == before.suggestions@[p]
        } else {
            now.same_as(before)
        }
    }

    /// True when `now` is `before` with the first `n` haptic outputs of
    /// a list bound, one after the other.
    pub open spec fn haptics_step(
        now: &LoadedActions,
        before: &LoadedActions,
        profile_index: int,
        haptics: Seq<SimpleBinding>,
        n: int,
    ) -> bool
        decreases n,
    {
        if n <= 0 {
            *now == *before
        } else {
            exists|mid: LoadedActions|
                Self::haptics_step(&mid, before, profile_index, haptics, n - 1)
                    && #[trigger] Self::haptic_step(now, &mid, profile_index, haptics[n - 1])
        }
    }

    /// One more haptic output bound after the first `n` makes the first
    /// `n + 1`.
    pub proof fn lemma_haptics_next(
        now: &LoadedActions,
        mid: &LoadedActions,
        before: &LoadedActions,
        profile_index: int,
        haptics: Seq<SimpleBinding>,
        n: int,
    )
        requires
            0 <= n < haptics.len(),
            Self::haptics_step(mid, before, profile_index, haptics, n),
            Self::haptic_step(now, mid, profile_index, haptics[n]),
        ensures
            Self::haptics_step(now, before, profile_index, haptics, n + 1),
    {
        let m = n + 1;
        assert(Self::haptics_step(mid, before, profile_index, haptics, m - 1));
    }

    /// True when `with_sources` is `before` with the sources that a
    /// binding file holds for the set at `set_index` bound, `with_poses`
    /// is that with the poses bound, and `now` is that with the haptic
    /// outputs bound.
    pub open spec fn set_binding_over(
        now: &LoadedActions,
        with_sources: &LoadedActions,
        with_poses: &LoadedActions,
        before: &LoadedActions,
        profile_index: int,
        controller_type: ControllerType,
        set_index: int,
        binding: ActionSetBinding,
    ) -> bool {
        &&& Self::sources_step(
            with_sources,
            before,
            profile_index,
            controller_type,
            set_index,
            binding.sources@,
            binding.sources@.len() as int,
        )
        &&& Self::poses_step(
            with_poses,
            with_sources,
            profile_index,
            binding.poses@,
            binding.poses@.len() as int,
        )
        &&& Self::haptics_step(
            now,
            with_poses,
            profile_index,
            binding.haptics@,
            binding.haptics@.len() as int,
        )
    }

    /// True when `now` is `before` with what a binding file holds for
    /// one action set bound: its sources, then its poses, then its haptic
    /// outputs. Nothing has changed when no set of that name, in
    /// lowercase, is loaded.
    pub open spec fn set_binding_step(
        now: &LoadedActions,
        before: &LoadedActions,
        profile_index: int,
        controller_type: ControllerType,
        binding: ActionSetBinding,
    ) -> bool {
        match before.set_position_of(lowercase_of(binding.set@)) {
            None => *now == *before,
            Some(set_index) => exists|with_sources: LoadedActions, with_poses: LoadedActions|
                #[trigger] Self::set_binding_over(
                    now,
                    &with_sources,
                    &with_poses,
                    before,
                    profile_index,
                    controller_type,
                    set_index,
                    binding,
                ),
        }
    }

    /// True when `now` is `before` with what a binding file holds for
    /// its first `n` action sets bound, one after the other.
    pub open spec fn file_step(
        now: &LoadedActions,
        before: &LoadedActions,
        profile_index: int,
        controller_type: ControllerType,
        bindings: Seq<ActionSetBinding>,
        n: int,
    ) -> bool
        decreases n,
    {
        if n <= 0 {
            *now == *before
        } else {
            exists|mid: LoadedActions|
                Self::file_step(&mid, before, profile_index, controller_type, bindings, n - 1)
                    && #[trigger] Self::set_binding_step(
                    now,
                    &mid,
                    profile_index,
                    controller_type,
                    bindings[n - 1],
                )
        }
    }

    /// One more action set bound after the first `n` makes the first
    /// `n + 1`.
    pub proof fn lemma_file_next(
        now: &LoadedActions,
        mid: &LoadedActions,
        before: &LoadedActions,
        profile_index: int,
        controller_type: ControllerType,
        bindings: Seq<ActionSetBinding>,
        n: int,
    )
        requires
            0 <= n < bindings.len(),
            Self::file_step(mid, before, profile_index, controller_type, bindings, n),
            Self::set_binding_step(now, mid, profile_index, controller_type, bindings[n]),
        ensures
            Self::file_step(now, before, profile_index, controller_type, bindings, n + 1),
    {
        let m = n + 1;
        assert(Self::file_step(mid, before, profile_index, controller_type, bindings, m - 1));
    }

    /// True when `now` is `before` with one default binding of a manifest
    /// worked off for a profile that is filled from `controller_type`:
    /// the file is bound if it is written for that controller type and
    /// could be read, and nothing has changed otherwise.
    pub open spec fn default_binding_step(
        now: &LoadedActions,
        before: &LoadedActions,
        profile_index: int,
        controller_type: ControllerType,
        entry: DefaultBinding,
    ) -> bool {
        if fills(entry, controller_type) {
            Self::file_step(
                now,
                before,
                profile_index,
                controller_type,
                entry.bindings.unwrap()@,
                entry.bindings.unwrap()@.len() as int,
            )
        } else {
            *now == *before
        }
    }

    /// True when `now` is `before` with the first `n` default bindings
    /// of a manifest worked off for a profile, one after the other.
    pub open spec fn files_step(
        now: &LoadedActions,
        before: &LoadedActions,
        profile_index: int,
        controller_type: ControllerType,
        files: Seq<DefaultBinding>,
        n: int,
    ) -> bool
        decreases n,
    {
        if n <= 0 {
            *now == *before
        } else {
            exists|mid: LoadedActions|
                Self::files_step(&mid, before, profile_index, controller_type, files, n - 1)
                    && #[trigger] Self::default_binding_step(
                    now,
                    &mid,
                    profile_index,
                    controller_type,
                    files[n - 1],
                )
        }
    }

    /// One more default binding worked off after the first `n` makes the
    /// first `n + 1`.
    pub proof fn lemma_files_next(
        now: &LoadedActions,
        mid: &LoadedActions,
        before: &LoadedActions,
        profile_index: int,
        controller_type: ControllerType,
        files: Seq<DefaultBinding>,
        n: int,
    )
        requires
            0 <= n < files.len(),
            Self::files_step(mid, before, profile_index, controller_type, files, n),
            Self::default_binding_step(now, mid, profile_index, controller_type, files[n]),
        ensures
            Self::files_step(now, before, profile_index, controller_type, files, n + 1),
    {
        let m = n + 1;
        assert(Self::files_step(mid, before, profile_index, controller_type, files, m - 1));
    }

    /// True when `now` is `before` with the info action suggested, for
    /// the profile at `profile_index`, once for every click, touch, value,
    /// force and single axis that the profile offers, in the order in
    /// which the profile lists them; nothing else is suggested or
    /// created, and the other profiles are as they were.
    pub open spec fn info_step(now: &LoadedActions, before: &LoadedActions, profile_index: int)
        -> bool {
        &&& now.wf()
        &&& now.extends(before)
        &&& now.runtime_sets@ == before.runtime_sets@
        &&& now.runtime_actions@ == before.runtime_actions@
        &&& now.actions@ == before.actions@
        &&& now.keyed@ == before.keyed@
        &&& now.info_bound(
            profile_index,
            before.suggestions@[profile_index].profile.legal().len() as int,
        )
        &&& now.suggestion_views(profile_index) == before.suggestion_views(profile_index)
            + info_suggestions(
            before.suggestions@[profile_index].profile.legal(),
            before.info_action,
            before.suggestions@[profile_index].profile.legal().len() as int,
        )
        &&& forall|p: int|
            0 <= p < before.suggestions@.len() && p != profile_index
                ==> #[trigger] now.suggestions@[p] == before.suggestions@[p]
    }

    /// True when `now` is `before` with the manifest bound for the
    /// profile at `profile_index`: every default binding is worked off,
    /// and then the info action is suggested.
    pub open spec fn profile_step(
        now: &LoadedActions,
        before: &LoadedActions,
        profile_index: int,
        manifest: ActionManifest,
    ) -> bool {
        exists|with_files: LoadedActions|
            Self::files_step(
                &with_files,
                before,
                profile_index,
                Profiles::list()[profile_index].0,
                manifest.default_bindings@,
                manifest.default_bindings@.len() as int,
            ) && #[trigger] Self::info_step(now, &with_files, profile_index)
    }

    /// True when `now` is `before` with the manifest bound for the first
    /// `n` supported profiles, one after the other.
    pub open spec fn profiles_step(
        now: &LoadedActions,
        before: &LoadedActions,
        manifest: ActionManifest,
        n: int,
    ) -> bool
        decreases n,
    {
        if n <= 0 {
            *now == *before
        } else {
            exists|mid: LoadedActions|
                Self::profiles_step(&mid, before, manifest, n - 1) && #[trigger] Self::profile_step(
                    now,
                    &mid,
                    n - 1,
                    manifest,
                )
        }
    }

    /// One more profile bound after the first `n` makes the first
    /// `n + 1`.
    pub proof fn lemma_profiles_next(
        now: &LoadedActions,
        mid: &LoadedActions,
        before: &LoadedActions,
        manifest: ActionManifest,
        n: int,
    )
        requires
            0 <= n < Profiles::list().len(),
            Self::profiles_step(mid, before, manifest, n),
            Self::profile_step(now, mid, n, manifest),
        ensures
            Self::profiles_step(now, before, manifest, n + 1),
    {
        let m = n + 1;
        assert(Self::profiles_step(mid, before, manifest, m - 1));
    }
}

} // verus!
