//! What a load does for the plain bindings: an input that a binding file
//! binds to an action directly is suggested for the runtime action of
//! that action when the load is over.
//!
//! A suggestion stays once it is made, so it is enough to follow the
//! binding through the steps to the one that makes it.

use crate::action_manifest::classify::resolved_path;
use crate::action_manifest::classify::target_raw;
use crate::action_manifest::classify::BindingClass;
use crate::action_manifest::steps::fills;
use crate::action_manifest::steps::input_at;
use crate::action_manifest::steps::output_at;
use crate::action_manifest::ActionManifest;
use crate::action_manifest::ActionSetBinding;
use crate::action_manifest::DefaultBinding;
use crate::action_manifest::LoadedActions;
use crate::action_manifest::SourceBinding;
use crate::action_manifest::SourceMode;
use crate::profiles::ControllerType;
use crate::profiles::Profiles;
use crate::strings::lowercase_of;
use vstd::prelude::*;

verus! {

impl LoadedActions {
    /// True when the output of `source` for the input at `k` is bound
    /// plainly on the profile at `p`: the input path `path`, as the
    /// profile offers it, goes to the runtime action `action` of the
    /// action that the output names.
    pub open spec fn binds_plainly(
        &self,
        p: int,
        source: SourceBinding,
        k: int,
        action: u32,
        path: Seq<char>,
    ) -> bool {
        let output = output_at(source.inputs, k);
        let at = self.position_of(lowercase_of(output.unwrap()@));
        &&& 0 <= k < 6
        &&& source.mode != SourceMode::Dpad
        &&& source.mode != SourceMode::Other
        &&& self.output_class(p, source, input_at(k), output) == BindingClass::Plain
        &&& self.actions@[at.unwrap()].action == Some(action)
        &&& resolved_path(self.suggestions@[p].profile, target_raw(source.path@, input_at(k)))
            == Some(path)
    }

    /// How the outputs of a source are bound does not change while
    /// bindings are added.
    pub proof fn lemma_plainly_same(
        now: &LoadedActions,
        before: &LoadedActions,
        p: int,
        source: SourceBinding,
        k: int,
        action: u32,
        path: Seq<char>,
    )
        requires
            before.wf(),
            0 <= p < before.suggestions@.len(),
            now.extends(before),
        ensures
            now.binds_plainly(p, source, k, action, path) == before.binds_plainly(
                p,
                source,
                k,
                action,
                path,
            ),
    {
        let output = output_at(source.inputs, k);
        if output.is_some() {
            Self::lemma_lookup_same(before.actions@, now.actions@, lowercase_of(output.unwrap()@), 0);
            let at = before.position_of(lowercase_of(output.unwrap()@));
            if at.is_some() {
                Self::lemma_lookup_in_range(before.actions@, lowercase_of(output.unwrap()@), 0);
                assert(now.actions@[at.unwrap()].kind == before.actions@[at.unwrap()].kind);
            }
        }
        assert(now.suggestions@[p].profile == before.suggestions@[p].profile);
    }

    /// A path that is found is found at a position of the list.
    pub proof fn lemma_lookup_in_range(
        actions: Seq<crate::action_manifest::LoadedAction>,
        path: Seq<char>,
        first: int,
    )
        requires
            0 <= first,
        ensures
            Self::path_lookup(actions, path, first) matches Some(at) ==> first <= at
                < actions.len(),
        decreases actions.len() - first,
    {
        if first < actions.len() && actions[first].path@ != path {
            Self::lemma_lookup_in_range(actions, path, first + 1);
        }
    }

    /// Binding the outputs of a source suggests what the source binds
    /// plainly.
    pub proof fn lemma_outputs_suggest(
        now: &LoadedActions,
        before: &LoadedActions,
        p: int,
        set_index: int,
        source: SourceBinding,
        n: int,
    )
        requires
            before.wf(),
            0 <= p < before.suggestions@.len(),
            n <= 6,
            Self::outputs_step(now, before, p, set_index, source, n),
        ensures
            forall|k: int, action: u32, path: Seq<char>|
                k < n && #[trigger] before.binds_plainly(p, source, k, action, path)
                    ==> now.suggested(p, action, path),
        decreases n,
    {
        if n > 0 {
            let mid = choose|mid: LoadedActions|
                Self::outputs_step(&mid, before, p, set_index, source, n - 1)
                    && #[trigger] Self::output_step(
                    now,
                    &mid,
                    p,
                    set_index,
                    source,
                    input_at(n - 1),
                    output_at(source.inputs, n - 1),
                );
            Self::lemma_outputs_suggest(&mid, before, p, set_index, source, n - 1);
            Self::lemma_outputs_grow(&mid, before, p, set_index, source, n - 1);
            assert forall|k: int, action: u32, path: Seq<char>|
                k < n && #[trigger] before.binds_plainly(
                    p,
                    source,
                    k,
                    action,
                    path,
                ) implies now.suggested(p, action, path) by {
                Self::lemma_plainly_same(&mid, before, p, source, k, action, path);
                if k < n - 1 {
                    Self::lemma_kept(&mid, now, Seq::empty(), p, action, path);
                } else {
                    let list = now.suggestions@[p].bindings@;
                    let last = mid.suggestions@[p].bindings@.len() as int;
                    assert(list[last].action == action && list[last].path@ == path);
                }
            }
        }
    }

    /// True when the source at `s` of `sources` binds an output plainly.
    pub open spec fn sources_bind_plainly(
        &self,
        p: int,
        sources: Seq<SourceBinding>,
        s: int,
        k: int,
        action: u32,
        path: Seq<char>,
    ) -> bool {
        0 <= s < sources.len() && self.binds_plainly(p, sources[s], k, action, path)
    }

    /// Binding a list of sources suggests what the sources bind plainly.
    pub proof fn lemma_sources_suggest(
        now: &LoadedActions,
        before: &LoadedActions,
        p: int,
        controller_type: ControllerType,
        set_index: int,
        sources: Seq<SourceBinding>,
        n: int,
    )
        requires
            before.wf(),
            0 <= p < before.suggestions@.len(),
            n <= sources.len(),
            Self::sources_step(now, before, p, controller_type, set_index, sources, n),
        ensures
            forall|s: int, k: int, action: u32, path: Seq<char>|
                s < n && #[trigger] before.sources_bind_plainly(p, sources, s, k, action, path)
                    ==> now.suggested(p, action, path),
        decreases n,
    {
        if n > 0 {
            let mid = choose|mid: LoadedActions|
                Self::sources_step(&mid, before, p, controller_type, set_index, sources, n - 1)
                    && #[trigger] Self::source_step(
                    now,
                    &mid,
                    p,
                    controller_type,
                    set_index,
                    sources[n - 1],
                );
            Self::lemma_sources_suggest(&mid, before, p, controller_type, set_index, sources, n - 1);
            Self::lemma_sources_grow(&mid, before, p, controller_type, set_index, sources, n - 1);
            Self::lemma_source_grows(now, &mid, p, controller_type, set_index, sources[n - 1]);
            let last = sources[n - 1];
            if last.mode != SourceMode::Dpad && last.mode != SourceMode::Other {
                Self::lemma_outputs_suggest(now, &mid, p, set_index, last, 6);
            }
            assert forall|s: int, k: int, action: u32, path: Seq<char>|
                s < n && #[trigger] before.sources_bind_plainly(
                    p,
                    sources,
                    s,
                    k,
                    action,
                    path,
                ) implies now.suggested(p, action, path) by {
                Self::lemma_plainly_same(&mid, before, p, sources[s], k, action, path);
                if s < n - 1 {
                    Self::lemma_kept(&mid, now, Seq::empty(), p, action, path);
                } else {
                    assert(mid.binds_plainly(p, last, k, action, path));
                }
            }
        }
    }

    /// True when the set binding at `b` of `bindings` binds an output
    /// plainly, for a set that is loaded.
    pub open spec fn file_binds_plainly(
        &self,
        p: int,
        bindings: Seq<ActionSetBinding>,
        b: int,
        s: int,
        k: int,
        action: u32,
        path: Seq<char>,
    ) -> bool {
        &&& 0 <= b < bindings.len()
        &&& self.set_position_of(lowercase_of(bindings[b].set@)).is_some()
        &&& self.sources_bind_plainly(p, bindings[b].sources@, s, k, action, path)
    }

    /// Binding a file suggests what the file binds plainly.
    pub proof fn lemma_file_suggests(
        now: &LoadedActions,
        before: &LoadedActions,
        p: int,
        controller_type: ControllerType,
        bindings: Seq<ActionSetBinding>,
        n: int,
    )
        requires
            before.wf(),
            0 <= p < before.suggestions@.len(),
            n <= bindings.len(),
            Self::file_step(now, before, p, controller_type, bindings, n),
        ensures
            forall|b: int, s: int, k: int, action: u32, path: Seq<char>|
                b < n && #[trigger] before.file_binds_plainly(p, bindings, b, s, k, action, path)
                    ==> now.suggested(p, action, path),
        decreases n,
    {
        if n > 0 {
            let mid = choose|mid: LoadedActions|
                Self::file_step(&mid, before, p, controller_type, bindings, n - 1)
                    && #[trigger] Self::set_binding_step(
                    now,
                    &mid,
                    p,
                    controller_type,
                    bindings[n - 1],
                );
            Self::lemma_file_suggests(&mid, before, p, controller_type, bindings, n - 1);
            Self::lemma_file_grows(&mid, before, p, controller_type, bindings, n - 1);
            Self::lemma_set_binding_grows(now, &mid, p, controller_type, bindings[n - 1]);
            let last = bindings[n - 1];
            assert(mid.sets@ == before.sets@);
            assert forall|b: int, s: int, k: int, action: u32, path: Seq<char>|
                b < n && #[trigger] before.file_binds_plainly(
                    p,
                    bindings,
                    b,
                    s,
                    k,
                    action,
                    path,
                ) implies now.suggested(p, action, path) by {
                Self::lemma_plainly_same(&mid, before, p, bindings[b].sources@[s], k, action, path);
                if b < n - 1 {
                    Self::lemma_kept(&mid, now, Seq::empty(), p, action, path);
                } else {
                    let set_index = mid.set_position_of(lowercase_of(last.set@)).unwrap();
                    let (with_sources, with_poses) = choose|
                        with_sources: LoadedActions,
                        with_poses: LoadedActions,
                    | #[trigger]
                        Self::set_binding_over(
                            now,
                            &with_sources,
                            &with_poses,
                            &mid,
                            p,
                            controller_type,
                            set_index,
                            last,
                        );
                    Self::lemma_sources_suggest(
                        &with_sources,
                        &mid,
                        p,
                        controller_type,
                        set_index,
                        last.sources@,
                        last.sources@.len() as int,
                    );
                    Self::lemma_sources_grow(
                        &with_sources,
                        &mid,
                        p,
                        controller_type,
                        set_index,
                        last.sources@,
                        last.sources@.len() as int,
                    );
                    Self::lemma_poses_grow(
                        &with_poses,
                        &with_sources,
                        p,
                        last.poses@,
                        last.poses@.len() as int,
                    );
                    Self::lemma_haptics_grow(
                        now,
                        &with_poses,
                        p,
                        last.haptics@,
                        last.haptics@.len() as int,
                    );
                    assert(mid.sources_bind_plainly(p, last.sources@, s, k, action, path));
                    Self::lemma_kept(&with_sources, &with_poses, Seq::empty(), p, action, path);
                    Self::lemma_kept(&with_poses, now, Seq::empty(), p, action, path);
                }
            }
        }
    }

    /// True when the default binding at `f` of `files` fills a profile
    /// that is filled from `controller_type`, and binds an output
    /// plainly.
    pub open spec fn files_bind_plainly(
        &self,
        p: int,
        files: Seq<DefaultBinding>,
        controller_type: ControllerType,
        f: int,
        b: int,
        s: int,
        k: int,
        action: u32,
        path: Seq<char>,
    ) -> bool {
        &&& 0 <= f < files.len()
        &&& fills(files[f], controller_type)
        &&& self.file_binds_plainly(p, files[f].bindings.unwrap()@, b, s, k, action, path)
    }

    /// Working off the default bindings of a manifest for a profile
    /// suggests what the files of the profile bind plainly.
    pub proof fn lemma_files_suggest(
        now: &LoadedActions,
        before: &LoadedActions,
        p: int,
        controller_type: ControllerType,
        files: Seq<DefaultBinding>,
        n: int,
    )
        requires
            before.wf(),
            0 <= p < before.suggestions@.len(),
            n <= files.len(),
            Self::files_step(now, before, p, controller_type, files, n),
        ensures
            forall|f: int, b: int, s: int, k: int, action: u32, path: Seq<char>|
                f < n && #[trigger] before.files_bind_plainly(
                    p,
                    files,
                    controller_type,
                    f,
                    b,
                    s,
                    k,
                    action,
                    path,
                ) ==> now.suggested(p, action, path),
        decreases n,
    {
        if n > 0 {
            let mid = choose|mid: LoadedActions|
                Self::files_step(&mid, before, p, controller_type, files, n - 1)
                    && #[trigger] Self::default_binding_step(
                    now,
                    &mid,
                    p,
                    controller_type,
                    files[n - 1],
                );
            Self::lemma_files_suggest(&mid, before, p, controller_type, files, n - 1);
            Self::lemma_files_grow(&mid, before, p, controller_type, files, n - 1);
            assert(mid.sets@ == before.sets@);
            if fills(files[n - 1], controller_type) {
                let bindings = files[n - 1].bindings.unwrap()@;
                Self::lemma_file_suggests(
                    now,
                    &mid,
                    p,
                    controller_type,
                    bindings,
                    bindings.len() as int,
                );
                Self::lemma_file_grows(
                    now,
                    &mid,
                    p,
                    controller_type,
                    bindings,
                    bindings.len() as int,
                );
            } else {
                Self::lemma_grown_refl(&mid);
            }
            assert forall|f: int, b: int, s: int, k: int, action: u32, path: Seq<char>|
                f < n && #[trigger] before.files_bind_plainly(
                    p,
                    files,
                    controller_type,
                    f,
                    b,
                    s,
                    k,
                    action,
                    path,
                ) implies now.suggested(p, action, path) by {
                let bindings = files[f].bindings.unwrap()@;
                Self::lemma_plainly_same(&mid, before, p, bindings[b].sources@[s], k, action, path);
                if f < n - 1 {
                    Self::lemma_kept(&mid, now, Seq::empty(), p, action, path);
                } else {
                    assert(mid.file_binds_plainly(p, bindings, b, s, k, action, path));
                }
            }
        }
    }

    /// True when the manifest binds, for the profile at `p`, the input
    /// path `path` plainly to the runtime action `action`: a default
    /// binding that fills the profile holds, for a set that is loaded, a
    /// source with an output that is bound plainly.
    pub open spec fn manifest_binds_plainly(
        &self,
        manifest: ActionManifest,
        p: int,
        f: int,
        b: int,
        s: int,
        k: int,
        action: u32,
        path: Seq<char>,
    ) -> bool {
        &&& 0 <= p < Profiles::list().len()
        &&& self.files_bind_plainly(
            p,
            manifest.default_bindings@,
            Profiles::list()[p].0,
            f,
            b,
            s,
            k,
            action,
            path,
        )
    }

    /// Binding a manifest for the supported profiles suggests, for each
    /// profile, what the manifest binds plainly for it.
    pub proof fn lemma_profiles_suggest(
        now: &LoadedActions,
        before: &LoadedActions,
        manifest: ActionManifest,
        n: int,
    )
        requires
            before.wf(),
            n <= Profiles::list().len(),
            Self::profiles_step(now, before, manifest, n),
        ensures
            forall|p: int, f: int, b: int, s: int, k: int, action: u32, path: Seq<char>|
                p < n && #[trigger] before.manifest_binds_plainly(
                    manifest,
                    p,
                    f,
                    b,
                    s,
                    k,
                    action,
                    path,
                ) ==> now.suggested(p, action, path),
        decreases n,
    {
        if n > 0 {
            let mid = choose|mid: LoadedActions|
                Self::profiles_step(&mid, before, manifest, n - 1) && #[trigger] Self::profile_step(
                    now,
                    &mid,
                    n - 1,
                    manifest,
                );
            Self::lemma_profiles_suggest(&mid, before, manifest, n - 1);
            Self::lemma_profiles_grow(&mid, before, manifest, n - 1);
            let files = manifest.default_bindings@;
            let with_files = choose|with_files: LoadedActions|
                Self::files_step(
                    &with_files,
                    &mid,
                    n - 1,
                    Profiles::list()[n - 1].0,
                    files,
                    files.len() as int,
                ) && #[trigger] Self::info_step(now, &with_files, n - 1);
            Self::lemma_files_suggest(
                &with_files,
                &mid,
                n - 1,
                Profiles::list()[n - 1].0,
                files,
                files.len() as int,
            );
            Self::lemma_files_grow(
                &with_files,
                &mid,
                n - 1,
                Profiles::list()[n - 1].0,
                files,
                files.len() as int,
            );
            Self::lemma_extends_trans(now, &with_files, &mid);
            assert(mid.sets@ == before.sets@);
            assert forall|p: int, f: int, b: int, s: int, k: int, action: u32, path: Seq<char>|
                p < n && #[trigger] before.manifest_binds_plainly(
                    manifest,
                    p,
                    f,
                    b,
                    s,
                    k,
                    action,
                    path,
                ) implies now.suggested(p, action, path) by {
                let bindings = files[f].bindings.unwrap()@;
                Self::lemma_plainly_same(&mid, before, p, bindings[b].sources@[s], k, action, path);
                if p < n - 1 {
                    Self::lemma_kept(&mid, now, Seq::empty(), p, action, path);
                } else {
                    assert(mid.files_bind_plainly(
                        p,
                        files,
                        Profiles::list()[p].0,
                        f,
                        b,
                        s,
                        k,
                        action,
                        path,
                    ));
                    Self::lemma_kept(&with_files, now, Seq::empty(), p, action, path);
                }
            }
        }
    }

    /// A load suggests the plain bindings of the manifest: in what is
    /// loaded from a state that holds what the manifest declares, every
    /// input that the manifest binds plainly for a supported profile is
    /// suggested for the runtime action of its action.
    pub proof fn lemma_load_suggests(
        loaded: &LoadedActions,
        declared: &LoadedActions,
        manifest: ActionManifest,
        p: int,
        f: int,
        b: int,
        s: int,
        k: int,
        action: u32,
        path: Seq<char>,
    )
        requires
            declared.wf(),
            Self::profiles_step(loaded, declared, manifest, Profiles::list().len() as int),
            loaded.manifest_binds_plainly(manifest, p, f, b, s, k, action, path),
        ensures
            loaded.suggested(p, action, path),
    {
        Self::lemma_profiles_grow(loaded, declared, manifest, Profiles::list().len() as int);
        Self::lemma_profiles_suggest(loaded, declared, manifest, Profiles::list().len() as int);
        let bindings = manifest.default_bindings@[f].bindings.unwrap()@;
        Self::lemma_plainly_same(loaded, declared, p, bindings[b].sources@[s], k, action, path);
        assert(declared.sets@ == loaded.sets@);
        assert(declared.manifest_binds_plainly(manifest, p, f, b, s, k, action, path));
    }
}

} // verus!
