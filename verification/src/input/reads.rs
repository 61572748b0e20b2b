//! Reading the custom bindings of a loaded action: every binding of the
//! current profile is read for the hand, and what they report is merged
//! into the state of the action.

use crate::action_manifest::LoadedActions;
use crate::action_manifest::ProfileBindings;
use crate::custom_bindings::BindingData;
use crate::custom_bindings::BindingState;
use crate::custom_bindings::ExtraActionData;
use crate::profiles::Profile;
use crate::runtime::ActionState;
use crate::runtime::Hand;
use crate::runtime::HapticRequest;
use crate::runtime::Snapshot;
use vstd::prelude::*;

verus! {

/// The state of an action once a binding has reported `s`. A binding that
/// reports nothing changes nothing. The action is active if either is, and
/// its state is the disjunction of both. A state that is already true
/// keeps its change flag and its time; else a binding that reports true
/// gives both; and while neither is true the action has changed if either
/// has.
pub open spec fn merged(acc: ActionState<bool>, s: Option<ActionState<bool>>) -> ActionState<
    bool,
> {
    match s {
        None => acc,
        Some(s) => ActionState {
            current_state: acc.current_state || s.current_state,
            changed_since_last_sync: if acc.current_state {
                acc.changed_since_last_sync
            } else if s.current_state {
                s.changed_since_last_sync
            } else {
                acc.changed_since_last_sync || s.changed_since_last_sync
            },
            last_change_time: if acc.current_state || !s.is_active {
                acc.last_change_time
            } else {
                s.last_change_time
            },
            is_active: acc.is_active || s.is_active,
        },
    }
}

/// Merges what a binding reports into the state of an action.
pub fn merge(acc: ActionState<bool>, s: Option<ActionState<bool>>) -> (r: ActionState<bool>)
    ensures
        r == merged(acc, s),
{
    match s {
        None => acc,
        Some(s) => ActionState {
            current_state: acc.current_state || s.current_state,
            changed_since_last_sync: if acc.current_state {
                acc.changed_since_last_sync
            } else if s.current_state {
                s.changed_since_last_sync
            } else {
                acc.changed_since_last_sync || s.changed_since_last_sync
            },
            last_change_time: if acc.current_state || !s.is_active {
                acc.last_change_time
            } else {
                s.last_change_time
            },
            is_active: acc.is_active || s.is_active,
        },
    }
}

/// The state of an action that starts as `acc` once the bindings from
/// `first` on have been read for `hand`, in their order.
pub open spec fn read_all(
    bindings: Seq<BindingData>,
    snapshot: &Snapshot,
    extra: ExtraActionData,
    hand: Hand,
    acc: ActionState<bool>,
    first: int,
) -> ActionState<bool>
    decreases bindings.len() - first,
{
    if first < 0 || first >= bindings.len() {
        acc
    } else {
        read_all(
            bindings,
            snapshot,
            extra,
            hand,
            merged(acc, bindings[first].read(snapshot, extra, hand).state),
            first + 1,
        )
    }
}

/// The pulses that reading the bindings from `first` on for `hand` asks
/// for, in their order.
pub open spec fn pulses_all(
    bindings: Seq<BindingData>,
    snapshot: &Snapshot,
    extra: ExtraActionData,
    hand: Hand,
    first: int,
) -> Seq<HapticRequest>
    decreases bindings.len() - first,
{
    if first < 0 || first >= bindings.len() {
        Seq::empty()
    } else {
        (match bindings[first].read(snapshot, extra, hand).pulse {
            Some(p) => seq![p],
            None => Seq::empty(),
        }) + pulses_all(bindings, snapshot, extra, hand, first + 1)
    }
}

/// The bindings once each has been read for `hand`.
pub open spec fn after_reads(
    bindings: Seq<BindingData>,
    snapshot: &Snapshot,
    extra: ExtraActionData,
    hand: Hand,
) -> Seq<BindingData> {
    Seq::new(bindings.len(), |i: int| bindings[i].after_read(snapshot, extra, hand))
}

/// The bindings once each has forgotten its stored result.
pub open spec fn unsynced(bindings: Seq<BindingData>) -> Seq<BindingData> {
    Seq::new(
        bindings.len(),
        |i: int| BindingData { last_state: BindingState::Unsynced, ..bindings[i] },
    )
}

/// Reads every binding of a list for `hand` and merges what they report
/// into `acc`. The pulses that the reads ask for are appended to
/// `pulses`.
pub fn read_bindings(
    bindings: &mut Vec<BindingData>,
    snapshot: &Snapshot,
    extra: &ExtraActionData,
    hand: Hand,
    acc: ActionState<bool>,
    pulses: &mut Vec<HapticRequest>,
) -> (r: ActionState<bool>)
    ensures
        r == read_all(old(bindings)@, snapshot, *extra, hand, acc, 0),
        final(bindings)@ == after_reads(old(bindings)@, snapshot, *extra, hand),
        final(pulses)@ == old(pulses)@ + pulses_all(old(bindings)@, snapshot, *extra, hand, 0),
{
    let n: usize = bindings.len();
    let mut state = acc;
    let mut k: usize = 0;
    while k < n
        invariant
            k <= n,
            n == bindings@.len(),
            n == old(bindings)@.len(),
            forall|j: int|
                0 <= j < k ==> #[trigger] bindings@[j] == old(bindings)@[j].after_read(
                    snapshot,
                    *extra,
                    hand,
                ),
            forall|j: int| k <= j < n ==> #[trigger] bindings@[j] == old(bindings)@[j],
            read_all(old(bindings)@, snapshot, *extra, hand, acc, 0) == read_all(
                old(bindings)@,
                snapshot,
                *extra,
                hand,
                state,
                k as int,
            ),
            old(pulses)@ + pulses_all(old(bindings)@, snapshot, *extra, hand, 0) == pulses@
                + pulses_all(old(bindings)@, snapshot, *extra, hand, k as int),
        decreases n - k,
    {
        let ghost before = pulses@;
        let ghost rest = pulses_all(old(bindings)@, snapshot, *extra, hand, k as int);
        let e = bindings[k].state(snapshot, extra, hand);
        state = merge(state, e.state);
        match e.pulse {
            Some(p) => {
                pulses.push(p);
            },
            None => {},
        }
        k += 1;
        assert(pulses@ + pulses_all(old(bindings)@, snapshot, *extra, hand, k as int) =~= before
            + rest);
    }
    assert(pulses@ + Seq::<HapticRequest>::empty() =~= pulses@);
    assert(bindings@ =~= after_reads(old(bindings)@, snapshot, *extra, hand));
    state
}

/// Makes every binding of a list forget its stored result.
pub fn unsync_bindings(bindings: &mut Vec<BindingData>)
    ensures
        final(bindings)@ == unsynced(old(bindings)@),
{
    let n: usize = bindings.len();
    let mut k: usize = 0;
    while k < n
        invariant
            k <= n,
            n == bindings@.len(),
            n == old(bindings)@.len(),
            forall|j: int|
                0 <= j < k ==> #[trigger] bindings@[j] == (BindingData {
                    last_state: BindingState::Unsynced,
                    ..old(bindings)@[j]
                }),
            forall|j: int| k <= j < n ==> #[trigger] bindings@[j] == old(bindings)@[j],
        decreases n - k,
    {
        bindings[k].unsync();
        k += 1;
    }
    assert(bindings@ =~= unsynced(old(bindings)@));
}

/// What the custom bindings of the boolean action at `index` make of
/// `direct`, the state that the runtime reports for the action itself.
/// For each hand that `restrict` admits, the left hand first, the custom
/// bindings that the action has for the profile of that hand are read in
/// their order and merged into the state.
pub open spec fn digital_merge(
    loaded: LoadedActions,
    index: int,
    snapshot: &Snapshot,
    restrict: Option<Hand>,
    left: Option<Profile>,
    right: Option<Profile>,
    direct: ActionState<bool>,
) -> ActionState<bool> {
    let a = loaded.actions@[index];
    let reads_left = restrict != Some(Hand::Right) && left.is_some();
    let reads_right = restrict != Some(Hand::Left) && right.is_some();
    let after_left = if reads_left {
        read_all(loaded.bindings_of(index, left.unwrap()), snapshot, a.extra, Hand::Left, direct, 0)
    } else {
        direct
    };
    if reads_right {
        read_all(
            if reads_left && left == right {
                after_reads(
                    loaded.bindings_of(index, left.unwrap()),
                    snapshot,
                    a.extra,
                    Hand::Left,
                )
            } else {
                loaded.bindings_of(index, right.unwrap())
            },
            snapshot,
            a.extra,
            Hand::Right,
            after_left,
            0,
        )
    } else {
        after_left
    }
}

/// The custom bindings that the boolean action at `index` has for
/// `profile` once the action has been read: each binding that was read for
/// a hand holds its result until the next sync.
pub open spec fn digital_bindings(
    loaded: LoadedActions,
    index: int,
    snapshot: &Snapshot,
    restrict: Option<Hand>,
    left: Option<Profile>,
    right: Option<Profile>,
    profile: Profile,
) -> Seq<BindingData> {
    let extra = loaded.actions@[index].extra;
    let before = loaded.bindings_of(index, profile);
    let reads_left = restrict != Some(Hand::Right) && left == Some(profile);
    let reads_right = restrict != Some(Hand::Left) && right == Some(profile);
    let after_left = if reads_left {
        after_reads(before, snapshot, extra, Hand::Left)
    } else {
        before
    };
    if reads_right {
        after_reads(after_left, snapshot, extra, Hand::Right)
    } else {
        after_left
    }
}

/// The pulses that a read of the boolean action at `index` asks for: those
/// of the bindings for the profile of the left hand, then those of the
/// bindings for the profile of the right hand.
pub open spec fn digital_pulses(
    loaded: LoadedActions,
    index: int,
    snapshot: &Snapshot,
    restrict: Option<Hand>,
    left: Option<Profile>,
    right: Option<Profile>,
) -> Seq<HapticRequest> {
    let extra = loaded.actions@[index].extra;
    let reads_left = restrict != Some(Hand::Right) && left.is_some();
    let reads_right = restrict != Some(Hand::Left) && right.is_some();
    (if reads_left {
        pulses_all(
            loaded.bindings_of(index, left.unwrap()),
            snapshot,
            extra,
            Hand::Left,
            0,
        )
    } else {
        Seq::empty()
    }) + (if reads_right {
        pulses_all(
            if reads_left && left == right {
                after_reads(loaded.bindings_of(index, left.unwrap()), snapshot, extra, Hand::Left)
            } else {
                loaded.bindings_of(index, right.unwrap())
            },
            snapshot,
            extra,
            Hand::Right,
            0,
        )
    } else {
        Seq::empty()
    })
}

impl LoadedActions {
    /// Reads, for `hand`, the custom bindings that the action at
    /// `action_index` has for `profile`, and merges what they report into
    /// `acc`. The bindings that were read keep their results until they
    /// are unsynced; nothing else changes.
    pub fn read_pass(
        &mut self,
        action_index: usize,
        profile: Profile,
        snapshot: &Snapshot,
        hand: Hand,
        acc: ActionState<bool>,
        pulses: &mut Vec<HapticRequest>,
    ) -> (r: ActionState<bool>)
        requires
            old(self).wf(),
            action_index < old(self).actions@.len(),
        ensures
            final(self).wf(),
            final(self).extends(old(self)),
            final(self).runtime_sets@ == old(self).runtime_sets@,
            final(self).runtime_actions@ == old(self).runtime_actions@,
            final(self).suggestions@ == old(self).suggestions@,
            final(self).keyed@ == old(self).keyed@,
            r == read_all(
                old(self).bindings_of(action_index as int, profile),
                snapshot,
                old(self).actions@[action_index as int].extra,
                hand,
                acc,
                0,
            ),
            final(self).bindings_of(action_index as int, profile) == after_reads(
                old(self).bindings_of(action_index as int, profile),
                snapshot,
                old(self).actions@[action_index as int].extra,
                hand,
            ),
            forall|q: Profile|
                q != profile ==> #[trigger] final(self).bindings_of(action_index as int, q)
                    == old(self).bindings_of(action_index as int, q),
            final(pulses)@ == old(pulses)@ + pulses_all(
                old(self).bindings_of(action_index as int, profile),
                snapshot,
                old(self).actions@[action_index as int].extra,
                hand,
                0,
            ),
            final(self).actions@[action_index as int].extra
                == old(self).actions@[action_index as int].extra,
            final(self).actions@[action_index as int].poses
                == old(self).actions@[action_index as int].poses,
            final(self).actions@[action_index as int].last_value
                == old(self).actions@[action_index as int].last_value,
            forall|i: int|
                0 <= i < old(self).actions@.len() && i != action_index
                    ==> #[trigger] final(self).actions@[i] == old(self).actions@[i],
    {
        let extra = self.actions[action_index].extra;
        match self.find_bindings(action_index, profile) {
            Some(k) => {
                let ghost entries = self.actions@[action_index as int].bindings@;
                let r = read_bindings(
                    &mut self.actions[action_index].bindings[k].bindings,
                    snapshot,
                    &extra,
                    hand,
                    acc,
                    pulses,
                );
                proof {
                    let now = self.actions@[action_index as int].bindings@;
                    Self::lemma_bindings_at(now, profile, k as int);
                    assert forall|q: Profile| q != profile implies Self::bindings_in(now, q, 0)
                        == Self::bindings_in(entries, q, 0) by {
                        Self::lemma_bindings_same(entries, now, q, k as int, 0);
                    }
                }
                r
            },
            None => {
                proof {
                    assert(after_reads(Seq::<BindingData>::empty(), snapshot, extra, hand)
                        =~= Seq::<BindingData>::empty());
                    assert(pulses@ + Seq::<HapticRequest>::empty() =~= pulses@);
                }
                acc
            },
        }
    }

    /// Reads the custom bindings of the boolean action at `action_index`
    /// for each hand that `restrict` admits, the left hand first, and
    /// merges what they report into `direct`. The bindings that were read
    /// keep their results until they are unsynced, the pulses they ask
    /// for are added to `pulses`, and nothing else changes.
    pub fn read_digital(
        &mut self,
        action_index: usize,
        snapshot: &Snapshot,
        restrict: Option<Hand>,
        left: Option<Profile>,
        right: Option<Profile>,
        direct: ActionState<bool>,
        pulses: &mut Vec<HapticRequest>,
    ) -> (r: ActionState<bool>)
        requires
            old(self).wf(),
            action_index < old(self).actions@.len(),
        ensures
            final(self).wf(),
            final(self).extends(old(self)),
            r == digital_merge(
                *old(self),
                action_index as int,
                snapshot,
                restrict,
                left,
                right,
                direct,
            ),
            forall|profile: Profile| #[trigger]
                final(self).bindings_of(action_index as int, profile) == digital_bindings(
                    *old(self),
                    action_index as int,
                    snapshot,
                    restrict,
                    left,
                    right,
                    profile,
                ),
            final(pulses)@ == old(pulses)@ + digital_pulses(
                *old(self),
                action_index as int,
                snapshot,
                restrict,
                left,
                right,
            ),
            final(self).actions@[action_index as int].extra
                == old(self).actions@[action_index as int].extra,
            final(self).actions@[action_index as int].poses
                == old(self).actions@[action_index as int].poses,
            final(self).actions@[action_index as int].last_value
                == old(self).actions@[action_index as int].last_value,
            final(self).runtime_sets@ == old(self).runtime_sets@,
            final(self).runtime_actions@ == old(self).runtime_actions@,
            final(self).suggestions@ == old(self).suggestions@,
            final(self).keyed@ == old(self).keyed@,
            forall|i: int|
                0 <= i < old(self).actions@.len() && i != action_index
                    ==> #[trigger] final(self).actions@[i] == old(self).actions@[i],
    {
        let ghost before = *self;
        let ghost pulses_before = pulses@;
        let admits_left = match restrict {
            Some(Hand::Right) => false,
            _ => true,
        };
        let admits_right = match restrict {
            Some(Hand::Left) => false,
            _ => true,
        };
        let mut state = direct;
        match left {
            Some(p) => {
                if admits_left {
                    state = self.read_pass(action_index, p, snapshot, Hand::Left, state, pulses);
                }
            },
            None => {},
        }
        let ghost middle = *self;
        let ghost pulses_middle = pulses@;
        match right {
            Some(p) => {
                if admits_right {
                    state = self.read_pass(action_index, p, snapshot, Hand::Right, state, pulses);
                }
            },
            None => {},
        }
        proof {
            Self::lemma_extends_refl(&before);
            Self::lemma_extends_refl(&middle);
            Self::lemma_extends_trans(self, &middle, &before);
            assert(pulses_before + Seq::<HapticRequest>::empty() =~= pulses_before);
            assert(pulses_middle + Seq::<HapticRequest>::empty() =~= pulses_middle);
            assert(pulses@ =~= pulses_before + digital_pulses(
                before,
                action_index as int,
                snapshot,
                restrict,
                left,
                right,
            ));
        }
        state
    }


    /// Two lists of entries that differ only in the bindings of the entry
    /// at `k` hold the same bindings for every profile but that of the
    /// entry at `k`.
    pub proof fn lemma_bindings_same(
        before: Seq<ProfileBindings>,
        after: Seq<ProfileBindings>,
        profile: Profile,
        k: int,
        from: int,
    )
        requires
            0 <= k < before.len(),
            0 <= from <= before.len(),
            before.len() == after.len(),
            after[k].profile == before[k].profile,
            before[k].profile != profile,
            forall|j: int| 0 <= j < before.len() && j != k ==> #[trigger] after[j] == before[j],
        ensures
            Self::bindings_in(after, profile, from) == Self::bindings_in(before, profile, from),
        decreases before.len() - from,
    {
        if from < before.len() {
            Self::lemma_bindings_same(before, after, profile, k, from + 1);
        }
    }
}

impl LoadedActions {
    /// True when `self` is `before` with every custom binding unsynced.
    pub open spec fn is_unsynced_from(&self, before: &LoadedActions) -> bool {
        &&& self.extends(before)
        &&& self.runtime_sets@ == before.runtime_sets@
        &&& self.runtime_actions@ == before.runtime_actions@
        &&& self.suggestions@ == before.suggestions@
        &&& self.keyed@ == before.keyed@
        &&& forall|i: int|
            0 <= i < self.actions@.len() ==> {
                let a = #[trigger] self.actions@[i];
                let b = before.actions@[i];
                &&& a.extra == b.extra
                &&& a.poses == b.poses
                &&& a.last_value == b.last_value
                &&& a.bindings@.len() == b.bindings@.len()
            }
        &&& forall|i: int, e: int|
            0 <= i < self.actions@.len() && 0 <= e < self.actions@[i].bindings@.len() ==> (
            #[trigger] self.actions@[i].bindings@[e]).profile
                == before.actions@[i].bindings@[e].profile
                && self.actions@[i].bindings@[e].bindings@ == unsynced(
                before.actions@[i].bindings@[e].bindings@,
            )
    }

    /// Makes every custom binding of every action forget its stored
    /// result, so that the next read computes anew.
    pub fn unsync_all(&mut self)
        requires
            old(self).wf(),
        ensures
            final(self).wf(),
            final(self).is_unsynced_from(old(self)),
    {
        let n: usize = self.actions.len();
        let mut i: usize = 0;
        while i < n
            invariant
                i <= n,
                n == self.actions@.len(),
                n == old(self).actions@.len(),
                self.wf(),
                self.extends(old(self)),
                self.runtime_sets@ == old(self).runtime_sets@,
                self.runtime_actions@ == old(self).runtime_actions@,
                self.suggestions@ == old(self).suggestions@,
                self.keyed@ == old(self).keyed@,
                forall|j: int| i <= j < n ==> #[trigger] self.actions@[j] == old(self).actions@[j],
                forall|j: int|
                    0 <= j < n ==> {
                        let a = #[trigger] self.actions@[j];
                        let b = old(self).actions@[j];
                        &&& a.extra == b.extra
                        &&& a.poses == b.poses
                        &&& a.last_value == b.last_value
                        &&& a.bindings@.len() == b.bindings@.len()
                    },
                forall|j: int, e: int|
                    0 <= j < i && 0 <= e < self.actions@[j].bindings@.len() ==> (
                    #[trigger] self.actions@[j].bindings@[e]).profile
                        == old(self).actions@[j].bindings@[e].profile
                        && self.actions@[j].bindings@[e].bindings@
                        == unsynced(old(self).actions@[j].bindings@[e].bindings@),
            decreases n - i,
        {
            let m: usize = self.actions[i].bindings.len();
            let mut e: usize = 0;
            while e < m
                invariant
                    e <= m,
                    i < n,
                    n == self.actions@.len(),
                    n == old(self).actions@.len(),
                    m == self.actions@[i as int].bindings@.len(),
                    m == old(self).actions@[i as int].bindings@.len(),
                    self.wf(),
                    self.extends(old(self)),
                    self.runtime_sets@ == old(self).runtime_sets@,
                    self.runtime_actions@ == old(self).runtime_actions@,
                    self.suggestions@ == old(self).suggestions@,
                    self.keyed@ == old(self).keyed@,
                    forall|j: int|
                        i < j < n ==> #[trigger] self.actions@[j] == old(self).actions@[j],
                    forall|j: int|
                        0 <= j < n ==> {
                            let a = #[trigger] self.actions@[j];
                            let b = old(self).actions@[j];
                            &&& a.extra == b.extra
                            &&& a.poses == b.poses
                            &&& a.last_value == b.last_value
                            &&& a.bindings@.len() == b.bindings@.len()
                        },
                    forall|j: int, f: int|
                        0 <= j < i && 0 <= f < self.actions@[j].bindings@.len() ==> (
                        #[trigger] self.actions@[j].bindings@[f]).profile
                            == old(self).actions@[j].bindings@[f].profile
                            && self.actions@[j].bindings@[f].bindings@ == unsynced(
                            old(self).actions@[j].bindings@[f].bindings@,
                        ),
                    forall|f: int|
                        0 <= f < e ==> (#[trigger] self.actions@[i as int].bindings@[f]).profile
                            == old(self).actions@[i as int].bindings@[f].profile
                            && self.actions@[i as int].bindings@[f].bindings@ == unsynced(
                            old(self).actions@[i as int].bindings@[f].bindings@,
                        ),
                    forall|f: int|
                        e <= f < m ==> #[trigger] self.actions@[i as int].bindings@[f]
                            == old(self).actions@[i as int].bindings@[f],
                decreases m - e,
            {
                unsync_bindings(&mut self.actions[i].bindings[e].bindings);
                e += 1;
            }
            i += 1;
        }
    }
}

} // verus!
