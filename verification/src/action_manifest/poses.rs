//! What a load does for the poses: a pose that a binding file binds to a
//! pose action is bound when the load is over, whatever else the files
//! bind.
//!
//! Every step of binding leaves the poses that are bound as they are, or
//! binds one more; the lemmas here follow a pose binding of a file
//! through the steps to the end of the load.

use crate::action_manifest::classify::pose_type_of;
use crate::action_manifest::names::hand_of;
use crate::action_manifest::steps::direction_at;
use crate::action_manifest::steps::direction_output_at;
use crate::action_manifest::steps::fills;
use crate::action_manifest::steps::input_at;
use crate::action_manifest::steps::output_at;
use crate::action_manifest::ActionKind;
use crate::action_manifest::ActionManifest;
use crate::action_manifest::ActionSetBinding;
use crate::action_manifest::DefaultBinding;
use crate::action_manifest::LoadedAction;
use crate::action_manifest::LoadedActions;
use crate::action_manifest::SimpleBinding;
use crate::action_manifest::SourceBinding;
use crate::custom_bindings::DpadActions;
use crate::profiles::ControllerType;
use crate::profiles::Profile;
use crate::profiles::Profiles;
use crate::runtime::Hand;
use crate::strings::lowercase_of;
use vstd::prelude::*;

verus! {

impl LoadedActions {
    /// True when the action at `i` has a pose bound for `profile` and
    /// `hand`.
    pub open spec fn hand_bound(&self, i: int, profile: Profile, hand: Hand) -> bool {
        match self.pose_of(i, profile) {
            Some(b) => match hand {
                Hand::Left => b.left.is_some(),
                Hand::Right => b.right.is_some(),
            },
            None => false,
        }
    }

    /// True when `now` is in order, holds what `before` holds, and has
    /// every pose bound that `before` has bound.
    pub open spec fn grown(now: &LoadedActions, before: &LoadedActions) -> bool {
        &&& now.wf()
        &&& now.extends(before)
        &&& forall|i: int, q: Profile, h: Hand|
            #![trigger now.hand_bound(i, q, h)]
            0 <= i < before.actions@.len() && before.hand_bound(i, q, h) ==> now.hand_bound(
                i,
                q,
                h,
            )
    }

    /// True when `binding` binds a pose for `hand` to the pose action at
    /// `i`: it names that action, and its path names the hand and a type
    /// of pose.
    pub open spec fn binds_pose(&self, binding: SimpleBinding, i: int, hand: Hand) -> bool {
        &&& self.position_of(lowercase_of(binding.output@)) == Some(i)
        &&& 0 <= i < self.actions@.len()
        &&& self.actions@[i].kind == ActionKind::Pose
        &&& hand_of(binding.path@) == Some(hand)
        &&& pose_type_of(binding.path@).is_some()
    }

    /// Growing is transitive.
    pub proof fn lemma_grown_trans(a: &LoadedActions, b: &LoadedActions, c: &LoadedActions)
        requires
            Self::grown(a, b),
            Self::grown(b, c),
        ensures
            Self::grown(a, c),
    {
        Self::lemma_extends_trans(a, b, c);
        assert forall|i: int, q: Profile, h: Hand|
            #![trigger a.hand_bound(i, q, h)]
            0 <= i < c.actions@.len() && c.hand_bound(i, q, h) implies a.hand_bound(i, q, h) by {
            assert(b.hand_bound(i, q, h));
        }
    }

    /// What is in order has grown from itself.
    pub proof fn lemma_grown_refl(a: &LoadedActions)
        requires
            a.wf(),
        ensures
            Self::grown(a, a),
    {
        Self::lemma_extends_refl(a);
    }

    /// Where two lists of actions hold the same paths, a path is found at
    /// the same position in both.
    pub proof fn lemma_lookup_same(
        before: Seq<LoadedAction>,
        after: Seq<LoadedAction>,
        path: Seq<char>,
        first: int,
    )
        requires
            0 <= first,
            before.len() == after.len(),
            forall|i: int| 0 <= i < before.len() ==> (#[trigger] after[i]).path == before[i].path,
        ensures
            Self::path_lookup(after, path, first) == Self::path_lookup(before, path, first),
        decreases before.len() - first,
    {
        if first < before.len() {
            assert(after[first].path == before[first].path);
            Self::lemma_lookup_same(before, after, path, first + 1);
        }
    }

    /// What a binding binds a pose to does not change while bindings are
    /// added.
    pub proof fn lemma_binds_same(
        now: &LoadedActions,
        before: &LoadedActions,
        binding: SimpleBinding,
        i: int,
        hand: Hand,
    )
        requires
            now.extends(before),
        ensures
            now.binds_pose(binding, i, hand) == before.binds_pose(binding, i, hand),
    {
        Self::lemma_lookup_same(
            before.actions@,
            now.actions@,
            lowercase_of(binding.output@),
            0,
        );
        if 0 <= i < before.actions@.len() {
            assert(now.actions@[i].kind == before.actions@[i].kind);
        }
    }

    /// Binding an output leaves the poses as they are.
    pub proof fn lemma_output_grows(
        now: &LoadedActions,
        before: &LoadedActions,
        profile_index: int,
        set_index: int,
        source: SourceBinding,
        k: int,
    )
        requires
            before.wf(),
            Self::output_step(
                now,
                before,
                profile_index,
                set_index,
                source,
                input_at(k),
                output_at(source.inputs, k),
            ),
        ensures
            Self::grown(now, before),
    {
        assert forall|i: int|
            0 <= i < before.actions@.len() implies (#[trigger] now.actions@[i]).poses
            == before.actions@[i].poses by {}
    }

    /// Binding the outputs of a source leaves the poses as they are.
    pub proof fn lemma_outputs_grow(
        now: &LoadedActions,
        before: &LoadedActions,
        profile_index: int,
        set_index: int,
        source: SourceBinding,
        n: int,
    )
        requires
            before.wf(),
            Self::outputs_step(now, before, profile_index, set_index, source, n),
        ensures
            Self::grown(now, before),
        decreases n,
    {
        if n <= 0 {
            Self::lemma_grown_refl(before);
        } else {
            let mid = choose|mid: LoadedActions|
                Self::outputs_step(&mid, before, profile_index, set_index, source, n - 1)
                    && #[trigger] Self::output_step(
                    now,
                    &mid,
                    profile_index,
                    set_index,
                    source,
                    input_at(n - 1),
                    output_at(source.inputs, n - 1),
                );
            Self::lemma_outputs_grow(&mid, before, profile_index, set_index, source, n - 1);
            Self::lemma_output_grows(now, &mid, profile_index, set_index, source, n - 1);
            Self::lemma_grown_trans(now, &mid, before);
        }
    }

    /// Attaching the directions of a dpad leaves the poses as they are.
    pub proof fn lemma_directions_grow(
        now: &LoadedActions,
        before: &LoadedActions,
        profile_index: int,
        source: SourceBinding,
        actions: DpadActions,
        hand: Hand,
        n: int,
    )
        requires
            before.wf(),
            Self::directions_step(now, before, profile_index, source, actions, hand, n),
        ensures
            Self::grown(now, before),
        decreases n,
    {
        if n <= 0 {
            Self::lemma_grown_refl(before);
        } else {
            let mid = choose|mid: LoadedActions|
                Self::directions_step(&mid, before, profile_index, source, actions, hand, n - 1)
                    && #[trigger] Self::direction_step(
                    now,
                    &mid,
                    profile_index,
                    source.mode,
                    direction_output_at(source.inputs, n - 1),
                    actions,
                    direction_at(n - 1),
                    hand,
                );
            Self::lemma_directions_grow(&mid, before, profile_index, source, actions, hand, n - 1);
            assert forall|i: int|
                0 <= i < mid.actions@.len() implies (#[trigger] now.actions@[i]).poses
                == mid.actions@[i].poses by {}
            assert(Self::grown(now, &mid));
            Self::lemma_grown_trans(now, &mid, before);
        }
    }

    /// Binding a source leaves the poses as they are.
    pub proof fn lemma_source_grows(
        now: &LoadedActions,
        before: &LoadedActions,
        profile_index: int,
        controller_type: ControllerType,
        set_index: int,
        source: SourceBinding,
    )
        requires
            before.wf(),
            Self::source_step(now, before, profile_index, controller_type, set_index, source),
        ensures
            Self::grown(now, before),
    {
        if source.mode == crate::action_manifest::SourceMode::Dpad {
            let parent = crate::action_manifest::classify::resolved(
                before.suggestions@[profile_index].profile,
                source.path@,
            );
            if parent.is_none() || crate::action_manifest::classify::kind_of_input(parent.unwrap())
                != crate::action_manifest::classify::InputKind::TwoAxis || hand_of(
                parent.unwrap(),
            ).is_none() {
                Self::lemma_grown_refl(before);
            } else {
                let (with_parent, found) = choose|
                    with_parent: LoadedActions,
                    found: Option<DpadActions>,
                | #[trigger]
                    Self::dpad_over(
                        now,
                        &with_parent,
                        before,
                        profile_index,
                        controller_type,
                        set_index,
                        source,
                        parent.unwrap(),
                        found,
                    );
                assert(Self::grown(&with_parent, before));
                match found {
                    None => {},
                    Some(actions) => {
                        Self::lemma_directions_grow(
                            now,
                            &with_parent,
                            profile_index,
                            source,
                            actions,
                            hand_of(parent.unwrap()).unwrap(),
                            5,
                        );
                        Self::lemma_grown_trans(now, &with_parent, before);
                    },
                }
            }
        } else if source.mode == crate::action_manifest::SourceMode::Other {
            Self::lemma_grown_refl(before);
        } else {
            Self::lemma_outputs_grow(now, before, profile_index, set_index, source, 6);
        }
    }

    /// Binding a list of sources leaves the poses as they are.
    pub proof fn lemma_sources_grow(
        now: &LoadedActions,
        before: &LoadedActions,
        profile_index: int,
        controller_type: ControllerType,
        set_index: int,
        sources: Seq<SourceBinding>,
        n: int,
    )
        requires
            before.wf(),
            Self::sources_step(now, before, profile_index, controller_type, set_index, sources, n),
        ensures
            Self::grown(now, before),
        decreases n,
    {
        if n <= 0 {
            Self::lemma_grown_refl(before);
        } else {
            let mid = choose|mid: LoadedActions|
                Self::sources_step(
                    &mid,
                    before,
                    profile_index,
                    controller_type,
                    set_index,
                    sources,
                    n - 1,
                ) && #[trigger] Self::source_step(
                    now,
                    &mid,
                    profile_index,
                    controller_type,
                    set_index,
                    sources[n - 1],
                );
            Self::lemma_sources_grow(
                &mid,
                before,
                profile_index,
                controller_type,
                set_index,
                sources,
                n - 1,
            );
            Self::lemma_source_grows(
                now,
                &mid,
                profile_index,
                controller_type,
                set_index,
                sources[n - 1],
            );
            Self::lemma_grown_trans(now, &mid, before);
        }
    }

    /// Binding a pose keeps every pose that is bound, and binds the pose
    /// of the binding where it binds one.
    pub proof fn lemma_pose_grows(
        now: &LoadedActions,
        before: &LoadedActions,
        profile_index: int,
        binding: SimpleBinding,
    )
        requires
            before.wf(),
            0 <= profile_index < before.suggestions@.len(),
            Self::pose_step(now, before, profile_index, binding),
        ensures
            Self::grown(now, before),
            forall|i: int, h: Hand|
                before.binds_pose(binding, i, h) ==> now.hand_bound(
                    i,
                    before.suggestions@[profile_index].profile,
                    h,
                ),
    {
        let found = before.position_of(lowercase_of(binding.output@));
        let profile = before.suggestions@[profile_index].profile;
        assert forall|i: int, q: Profile, h: Hand|
            #![trigger now.hand_bound(i, q, h)]
            0 <= i < before.actions@.len() && before.hand_bound(i, q, h) implies now.hand_bound(
            i,
            q,
            h,
        ) by {
            if found.is_some() && i == found.unwrap() {
                if q != profile {
                    assert(now.pose_of(i, q) == before.pose_of(i, q));
                }
            } else {
                assert(now.actions@[i].poses == before.actions@[i].poses);
            }
        }
    }

    /// Binding a list of poses keeps every pose that is bound, and binds
    /// the pose of each binding of the list that binds one.
    pub proof fn lemma_poses_grow(
        now: &LoadedActions,
        before: &LoadedActions,
        profile_index: int,
        poses: Seq<SimpleBinding>,
        n: int,
    )
        requires
            before.wf(),
            0 <= profile_index < before.suggestions@.len(),
            n <= poses.len(),
            Self::poses_step(now, before, profile_index, poses, n),
        ensures
            Self::grown(now, before),
            forall|j: int, i: int, h: Hand|
                0 <= j < n && #[trigger] before.binds_pose(poses[j], i, h) ==> now.hand_bound(
                    i,
                    before.suggestions@[profile_index].profile,
                    h,
                ),
        decreases n,
    {
        if n <= 0 {
            Self::lemma_grown_refl(before);
        } else {
            let mid = choose|mid: LoadedActions|
                Self::poses_step(&mid, before, profile_index, poses, n - 1)
                    && #[trigger] Self::pose_step(now, &mid, profile_index, poses[n - 1]);
            Self::lemma_poses_grow(&mid, before, profile_index, poses, n - 1);
            Self::lemma_pose_grows(now, &mid, profile_index, poses[n - 1]);
            Self::lemma_grown_trans(now, &mid, before);
            let profile = before.suggestions@[profile_index].profile;
            assert(mid.suggestions@[profile_index].profile == profile);
            assert forall|j: int, i: int, h: Hand|
                0 <= j < n && #[trigger] before.binds_pose(poses[j], i, h) implies now.hand_bound(
                i,
                profile,
                h,
            ) by {
                Self::lemma_binds_same(&mid, before, poses[j], i, h);
                if j < n - 1 {
                    assert(mid.hand_bound(i, profile, h));
                }
            }
        }
    }

    /// Binding a haptic output, or a list of them, leaves the poses as
    /// they are.
    pub proof fn lemma_haptics_grow(
        now: &LoadedActions,
        before: &LoadedActions,
        profile_index: int,
        haptics: Seq<SimpleBinding>,
        n: int,
    )
        requires
            before.wf(),
            Self::haptics_step(now, before, profile_index, haptics, n),
        ensures
            Self::grown(now, before),
        decreases n,
    {
        if n <= 0 {
            Self::lemma_grown_refl(before);
        } else {
            let mid = choose|mid: LoadedActions|
                Self::haptics_step(&mid, before, profile_index, haptics, n - 1)
                    && #[trigger] Self::haptic_step(now, &mid, profile_index, haptics[n - 1]);
            Self::lemma_haptics_grow(&mid, before, profile_index, haptics, n - 1);
            assert(now.actions@ == mid.actions@);
            assert(Self::grown(now, &mid));
            Self::lemma_grown_trans(now, &mid, before);
        }
    }

    /// Binding what a file holds for one action set keeps every pose
    /// that is bound, and binds the poses of the set where the set is
    /// loaded.
    pub proof fn lemma_set_binding_grows(
        now: &LoadedActions,
        before: &LoadedActions,
        profile_index: int,
        controller_type: ControllerType,
        binding: ActionSetBinding,
    )
        requires
            before.wf(),
            0 <= profile_index < before.suggestions@.len(),
            Self::set_binding_step(now, before, profile_index, controller_type, binding),
        ensures
            Self::grown(now, before),
            before.set_position_of(lowercase_of(binding.set@)).is_some() ==> forall|
                j: int,
                i: int,
                h: Hand,
            |
                0 <= j < binding.poses@.len()
                    && #[trigger] before.binds_pose(binding.poses@[j], i, h)
                    ==> now.hand_bound(i, before.suggestions@[profile_index].profile, h),
    {
        match before.set_position_of(lowercase_of(binding.set@)) {
            None => {
                Self::lemma_grown_refl(before);
            },
            Some(set_index) => {
                let (with_sources, with_poses) = choose|
                    with_sources: LoadedActions,
                    with_poses: LoadedActions,
                | #[trigger]
                    Self::set_binding_over(
                        now,
                        &with_sources,
                        &with_poses,
                        before,
                        profile_index,
                        controller_type,
                        set_index,
                        binding,
                    );
                Self::lemma_sources_grow(
                    &with_sources,
                    before,
                    profile_index,
                    controller_type,
                    set_index,
                    binding.sources@,
                    binding.sources@.len() as int,
                );
                Self::lemma_poses_grow(
                    &with_poses,
                    &with_sources,
                    profile_index,
                    binding.poses@,
                    binding.poses@.len() as int,
                );
                Self::lemma_haptics_grow(
                    now,
                    &with_poses,
                    profile_index,
                    binding.haptics@,
                    binding.haptics@.len() as int,
                );
                Self::lemma_grown_trans(&with_poses, &with_sources, before);
                Self::lemma_grown_trans(now, &with_poses, before);
                let profile = before.suggestions@[profile_index].profile;
                assert(with_sources.suggestions@[profile_index].profile == profile);
                assert forall|j: int, i: int, h: Hand|
                    0 <= j < binding.poses@.len() && #[trigger] before.binds_pose(
                        binding.poses@[j],
                        i,
                        h,
                    ) implies now.hand_bound(i, profile, h) by {
                    Self::lemma_binds_same(&with_sources, before, binding.poses@[j], i, h);
                    assert(with_poses.hand_bound(i, profile, h));
                }
            },
        }
    }

    /// True when the set binding at `b` of `bindings` binds a pose for
    /// `hand` to the pose action at `i`, for a set that is loaded.
    pub open spec fn file_binds_pose(
        &self,
        bindings: Seq<ActionSetBinding>,
        b: int,
        j: int,
        i: int,
        hand: Hand,
    ) -> bool {
        &&& 0 <= b < bindings.len()
        &&& 0 <= j < bindings[b].poses@.len()
        &&& self.set_position_of(lowercase_of(bindings[b].set@)).is_some()
        &&& self.binds_pose(bindings[b].poses@[j], i, hand)
    }

    /// Binding a file keeps every pose that is bound, and binds the
    /// poses that the file binds.
    pub proof fn lemma_file_grows(
        now: &LoadedActions,
        before: &LoadedActions,
        profile_index: int,
        controller_type: ControllerType,
        bindings: Seq<ActionSetBinding>,
        n: int,
    )
        requires
            before.wf(),
            0 <= profile_index < before.suggestions@.len(),
            n <= bindings.len(),
            Self::file_step(now, before, profile_index, controller_type, bindings, n),
        ensures
            Self::grown(now, before),
            forall|b: int, j: int, i: int, h: Hand|
                b < n && #[trigger] before.file_binds_pose(bindings, b, j, i, h) ==> now.hand_bound(
                    i,
                    before.suggestions@[profile_index].profile,
                    h,
                ),
        decreases n,
    {
        if n <= 0 {
            Self::lemma_grown_refl(before);
        } else {
            let mid = choose|mid: LoadedActions|
                Self::file_step(&mid, before, profile_index, controller_type, bindings, n - 1)
                    && #[trigger] Self::set_binding_step(
                    now,
                    &mid,
                    profile_index,
                    controller_type,
                    bindings[n - 1],
                );
            Self::lemma_file_grows(&mid, before, profile_index, controller_type, bindings, n - 1);
            Self::lemma_set_binding_grows(
                now,
                &mid,
                profile_index,
                controller_type,
                bindings[n - 1],
            );
            Self::lemma_grown_trans(now, &mid, before);
            let profile = before.suggestions@[profile_index].profile;
            assert(mid.suggestions@[profile_index].profile == profile);
            assert forall|b: int, j: int, i: int, h: Hand|
                b < n && #[trigger] before.file_binds_pose(
                    bindings,
                    b,
                    j,
                    i,
                    h,
                ) implies now.hand_bound(i, profile, h) by {
                Self::lemma_binds_same(&mid, before, bindings[b].poses@[j], i, h);
                assert(mid.sets@ == before.sets@);
                if b < n - 1 {
                    assert(mid.hand_bound(i, profile, h));
                } else {
                    assert(mid.binds_pose(bindings[b].poses@[j], i, h));
                }
            }
        }
    }

    /// True when the default binding at `f` of `files` fills a profile
    /// that is filled from `controller_type`, and binds a pose for `hand`
    /// to the pose action at `i`.
    pub open spec fn files_bind_pose(
        &self,
        files: Seq<DefaultBinding>,
        controller_type: ControllerType,
        f: int,
        b: int,
        j: int,
        i: int,
        hand: Hand,
    ) -> bool {
        &&& 0 <= f < files.len()
        &&& fills(files[f], controller_type)
        &&& self.file_binds_pose(files[f].bindings.unwrap()@, b, j, i, hand)
    }

    /// Working off the default bindings of a manifest for a profile keeps
    /// every pose that is bound, and binds the poses that the files of
    /// the profile bind.
    pub proof fn lemma_files_grow(
        now: &LoadedActions,
        before: &LoadedActions,
        profile_index: int,
        controller_type: ControllerType,
        files: Seq<DefaultBinding>,
        n: int,
    )
        requires
            before.wf(),
            0 <= profile_index < before.suggestions@.len(),
            n <= files.len(),
            Self::files_step(now, before, profile_index, controller_type, files, n),
        ensures
            Self::grown(now, before),
            forall|f: int, b: int, j: int, i: int, h: Hand|
                f < n && #[trigger] before.files_bind_pose(files, controller_type, f, b, j, i, h)
                    ==> now.hand_bound(i, before.suggestions@[profile_index].profile, h),
        decreases n,
    {
        if n <= 0 {
            Self::lemma_grown_refl(before);
        } else {
            let mid = choose|mid: LoadedActions|
                Self::files_step(&mid, before, profile_index, controller_type, files, n - 1)
                    && #[trigger] Self::default_binding_step(
                    now,
                    &mid,
                    profile_index,
                    controller_type,
                    files[n - 1],
                );
            Self::lemma_files_grow(&mid, before, profile_index, controller_type, files, n - 1);
            let profile = before.suggestions@[profile_index].profile;
            assert(mid.suggestions@[profile_index].profile == profile);
            if fills(files[n - 1], controller_type) {
                let bindings = files[n - 1].bindings.unwrap()@;
                Self::lemma_file_grows(
                    now,
                    &mid,
                    profile_index,
                    controller_type,
                    bindings,
                    bindings.len() as int,
                );
            } else {
                Self::lemma_grown_refl(&mid);
            }
            Self::lemma_grown_trans(now, &mid, before);
            assert forall|f: int, b: int, j: int, i: int, h: Hand|
                f < n && #[trigger] before.files_bind_pose(
                    files,
                    controller_type,
                    f,
                    b,
                    j,
                    i,
                    h,
                ) implies now.hand_bound(i, profile, h) by {
                let bindings = files[f].bindings.unwrap()@;
                Self::lemma_binds_same(&mid, before, bindings[b].poses@[j], i, h);
                assert(mid.sets@ == before.sets@);
                if f < n - 1 {
                    assert(mid.hand_bound(i, profile, h));
                } else {
                    assert(mid.file_binds_pose(bindings, b, j, i, h));
                }
            }
        }
    }

    /// True when the manifest binds, for the profile at `p`, a pose for
    /// `hand` to the pose action at `i`: a default binding that fills the
    /// profile holds, for a set that is loaded, a pose binding that names
    /// the action, the hand and a type of pose.
    pub open spec fn manifest_binds_pose(
        &self,
        manifest: ActionManifest,
        p: int,
        f: int,
        b: int,
        j: int,
        i: int,
        hand: Hand,
    ) -> bool {
        &&& 0 <= p < Profiles::list().len()
        &&& self.files_bind_pose(manifest.default_bindings@, Profiles::list()[p].0, f, b, j, i, hand)
    }

    /// Binding a manifest for the supported profiles keeps every pose
    /// that is bound, and binds every pose that the manifest binds.
    pub proof fn lemma_profiles_grow(
        now: &LoadedActions,
        before: &LoadedActions,
        manifest: ActionManifest,
        n: int,
    )
        requires
            before.wf(),
            n <= Profiles::list().len(),
            Self::profiles_step(now, before, manifest, n),
        ensures
            Self::grown(now, before),
            forall|p: int, f: int, b: int, j: int, i: int, h: Hand|
                p < n && #[trigger] before.manifest_binds_pose(manifest, p, f, b, j, i, h)
                    ==> now.hand_bound(i, Profiles::list()[p].1, h),
        decreases n,
    {
        if n <= 0 {
            Self::lemma_grown_refl(before);
        } else {
            let mid = choose|mid: LoadedActions|
                Self::profiles_step(&mid, before, manifest, n - 1) && #[trigger] Self::profile_step(
                    now,
                    &mid,
                    n - 1,
                    manifest,
                );
            Self::lemma_profiles_grow(&mid, before, manifest, n - 1);
            let files = manifest.default_bindings@;
            let with_files = choose|with_files: LoadedActions|
                Self::files_step(
                    &with_files,
                    &mid,
                    n - 1,
                    Profiles::list()[n - 1].0,
                    files,
                    files.len() as int,
                ) && #[trigger] Self::info_step(now, &with_files, n - 1);
            Self::lemma_files_grow(
                &with_files,
                &mid,
                n - 1,
                Profiles::list()[n - 1].0,
                files,
                files.len() as int,
            );
            assert(now.actions@ == with_files.actions@);
            assert(Self::grown(now, &with_files));
            Self::lemma_grown_trans(now, &with_files, &mid);
            Self::lemma_grown_trans(now, &mid, before);
            assert forall|p: int, f: int, b: int, j: int, i: int, h: Hand|
                p < n && #[trigger] before.manifest_binds_pose(
                    manifest,
                    p,
                    f,
                    b,
                    j,
                    i,
                    h,
                ) implies now.hand_bound(i, Profiles::list()[p].1, h) by {
                let bindings = files[f].bindings.unwrap()@;
                Self::lemma_binds_same(&mid, before, bindings[b].poses@[j], i, h);
                assert(mid.sets@ == before.sets@);
                if p < n - 1 {
                    assert(mid.hand_bound(i, Profiles::list()[p].1, h));
                } else {
                    assert(mid.files_bind_pose(files, Profiles::list()[p].0, f, b, j, i, h));
                    assert(with_files.hand_bound(i, mid.suggestions@[p].profile, h));
                }
            }
        }
    }

    /// A load binds the poses of the manifest: in what is loaded from a
    /// state that holds what the manifest declares, every pose that the
    /// manifest binds for a supported profile is bound.
    pub proof fn lemma_load_binds_poses(
        loaded: &LoadedActions,
        declared: &LoadedActions,
        manifest: ActionManifest,
        p: int,
        f: int,
        b: int,
        j: int,
        i: int,
        hand: Hand,
    )
        requires
            declared.wf(),
            Self::profiles_step(loaded, declared, manifest, Profiles::list().len() as int),
            loaded.manifest_binds_pose(manifest, p, f, b, j, i, hand),
        ensures
            loaded.hand_bound(i, Profiles::list()[p].1, hand),
    {
        Self::lemma_profiles_grow(loaded, declared, manifest, Profiles::list().len() as int);
        let bindings = manifest.default_bindings@[f].bindings.unwrap()@;
        Self::lemma_binds_same(loaded, declared, bindings[b].poses@[j], i, hand);
        assert(declared.sets@ == loaded.sets@);
        assert(declared.manifest_binds_pose(manifest, p, f, b, j, i, hand));
    }

    /// A set that is loaded is found by its name.
    pub proof fn lemma_set_found(&self, name: Seq<char>, at: int, first: int)
        requires
            0 <= first <= at < self.sets@.len(),
            self.sets@[at].name@ == name,
        ensures
            Self::name_lookup(self.sets@, name, first).is_some(),
        decreases at - first,
    {
        if self.sets@[first].name@ != name {
            self.lemma_set_found(name, at, first + 1);
        }
    }
}

} // verus!
