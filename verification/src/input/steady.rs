//! Syncing twice while nothing moves: a boolean action reads what it read
//! before, and reads it as unchanged.

use crate::action_manifest::LoadedActions;
use crate::action_manifest::ProfileBindings;
use crate::custom_bindings::lemma_sync_is_idempotent;
use crate::custom_bindings::settled;
use crate::custom_bindings::steady;
use crate::custom_bindings::BindingData;
use crate::custom_bindings::BindingState;
use crate::custom_bindings::ExtraActionData;
use crate::input::reads::after_reads;
use crate::input::reads::digital_bindings;
use crate::input::reads::digital_merge;
use crate::input::reads::merged;
use crate::input::reads::read_all;
use crate::input::reads::unsynced;
use crate::profiles::Profile;
use crate::runtime::ActionState;
use crate::runtime::Hand;
use crate::runtime::Snapshot;
use vstd::prelude::*;

verus! {

/// True when `later` reports the state that `earlier` reports, and reports
/// it as unchanged.
pub open spec fn calm(earlier: ActionState<bool>, later: ActionState<bool>) -> bool {
    &&& later.current_state == earlier.current_state
    &&& later.is_active == earlier.is_active
    &&& !later.changed_since_last_sync
}

/// True when both report nothing, or `later` reports calmly what `earlier`
/// reports.
pub open spec fn calm_report(
    earlier: Option<ActionState<bool>>,
    later: Option<ActionState<bool>>,
) -> bool {
    match (earlier, later) {
        (None, None) => true,
        (Some(a), Some(b)) => calm(a, b),
        _ => false,
    }
}

/// True when every binding of the list waits for its first read since a
/// sync, and the thresholds of each binding that has a source are in
/// order.
pub open spec fn all_steady(
    bindings: Seq<BindingData>,
    snapshot: &Snapshot,
    extra: ExtraActionData,
) -> bool {
    forall|i: int|
        0 <= i < bindings.len() ==> (#[trigger] bindings[i]).last_state == BindingState::Unsynced
            && (bindings[i].has_source(extra) ==> steady(bindings[i], snapshot))
}

/// True when `later` is `earlier` one sync on, as far as a read for `hand`
/// can tell: the bindings for `hand` have been read for it and unsynced.
pub open spec fn synced_once(
    earlier: Seq<BindingData>,
    later: Seq<BindingData>,
    snapshot: &Snapshot,
    extra: ExtraActionData,
    hand: Hand,
) -> bool {
    &&& later.len() == earlier.len()
    &&& forall|i: int|
        0 <= i < earlier.len() ==> (#[trigger] later[i]).hand == earlier[i].hand
    &&& forall|i: int|
        0 <= i < earlier.len() && earlier[i].hand == hand ==> #[trigger] later[i] == (BindingData {
            last_state: BindingState::Unsynced,
            ..earlier[i].after_read(snapshot, extra, hand)
        })
}

/// Merging calm reports into calm states gives calm states.
pub proof fn lemma_merge_calm(
    a: ActionState<bool>,
    b: ActionState<bool>,
    s: Option<ActionState<bool>>,
    t: Option<ActionState<bool>>,
)
    requires
        calm(a, b),
        calm_report(s, t),
    ensures
        calm(merged(a, s), merged(b, t)),
{
}

/// A binding that is read, unsynced and read again while nothing moves
/// reports calmly what it reported, whichever hand it is read for.
pub proof fn lemma_read_calm(
    b: BindingData,
    first: &Snapshot,
    second: &Snapshot,
    extra: ExtraActionData,
    hand: Hand,
)
    requires
        settled(first, second),
        b.last_state == BindingState::Unsynced,
        b.has_source(extra) ==> steady(b, first),
    ensures
        calm_report(
            b.read(first, extra, hand).state,
            (BindingData {
                last_state: BindingState::Unsynced,
                ..b.after_read(first, extra, hand)
            }).read(second, extra, hand).state,
        ),
{
    if b.hand == hand && b.has_source(extra) {
        lemma_sync_is_idempotent(b, first, second, extra);
    }
}

/// One pass over a list of bindings, made again a sync later while
/// nothing moves, merges calmly what it merged before.
pub proof fn lemma_pass_calm(
    earlier: Seq<BindingData>,
    later: Seq<BindingData>,
    first: &Snapshot,
    second: &Snapshot,
    extra: ExtraActionData,
    hand: Hand,
    a: ActionState<bool>,
    b: ActionState<bool>,
    from: int,
)
    requires
        settled(first, second),
        synced_once(earlier, later, first, extra, hand),
        forall|i: int|
            0 <= i < earlier.len() && (#[trigger] earlier[i]).hand == hand ==> earlier[i].last_state
                == BindingState::Unsynced && (earlier[i].has_source(extra) ==> steady(
                earlier[i],
                first,
            )),
        calm(a, b),
        0 <= from,
    ensures
        calm(
            read_all(earlier, first, extra, hand, a, from),
            read_all(later, second, extra, hand, b, from),
        ),
    decreases earlier.len() - from,
{
    if from < earlier.len() {
        let e = earlier[from];
        let l = later[from];
        if e.hand == hand {
            lemma_read_calm(e, first, second, extra, hand);
        } else {
            assert(l.hand != hand);
        }
        let s = e.read(first, extra, hand).state;
        let t = l.read(second, extra, hand).state;
        lemma_merge_calm(a, b, s, t);
        lemma_pass_calm(
            earlier,
            later,
            first,
            second,
            extra,
            hand,
            merged(a, s),
            merged(b, t),
            from + 1,
        );
    }
}

/// Syncing twice while nothing moves changes nothing that a boolean
/// action reads. Let the custom bindings of the action wait for their
/// first read, with thresholds that are in order; let the action be read
/// against `first`, every binding be unsynced, and the action be read
/// again against readings that report the same states as unchanged. Then
/// the second read reports the state of the first, and reports it as
/// unchanged.
pub proof fn lemma_digital_read_is_idempotent(
    loaded: LoadedActions,
    again: LoadedActions,
    index: int,
    first: &Snapshot,
    second: &Snapshot,
    restrict: Option<Hand>,
    left: Option<Profile>,
    right: Option<Profile>,
    direct: ActionState<bool>,
    direct_again: ActionState<bool>,
)
    requires
        settled(first, second),
        calm(direct, direct_again),
        again.actions@[index].extra == loaded.actions@[index].extra,
        forall|profile: Profile| #[trigger]
            again.bindings_of(index, profile) == unsynced(
                digital_bindings(loaded, index, first, restrict, left, right, profile),
            ),
        left.is_some() ==> all_steady(
            loaded.bindings_of(index, left.unwrap()),
            first,
            loaded.actions@[index].extra,
        ),
        right.is_some() ==> all_steady(
            loaded.bindings_of(index, right.unwrap()),
            first,
            loaded.actions@[index].extra,
        ),
    ensures
        calm(
            digital_merge(loaded, index, first, restrict, left, right, direct),
            digital_merge(again, index, second, restrict, left, right, direct_again),
        ),
{
    let extra = loaded.actions@[index].extra;
    let reads_left = restrict != Some(Hand::Right) && left.is_some();
    let reads_right = restrict != Some(Hand::Left) && right.is_some();
    let (mid, mid_again) = if reads_left {
        let p = left.unwrap();
        let earlier = loaded.bindings_of(index, p);
        let later = again.bindings_of(index, p);
        assert(later == unsynced(
            digital_bindings(loaded, index, first, restrict, left, right, p),
        ));
        assert(synced_once(earlier, later, first, extra, Hand::Left));
        lemma_pass_calm(earlier, later, first, second, extra, Hand::Left, direct, direct_again, 0);
        (
            read_all(earlier, first, extra, Hand::Left, direct, 0),
            read_all(later, second, extra, Hand::Left, direct_again, 0),
        )
    } else {
        (direct, direct_again)
    };
    if reads_right {
        let p = right.unwrap();
        let start = loaded.bindings_of(index, p);
        let begun = again.bindings_of(index, p);
        assert(begun == unsynced(
            digital_bindings(loaded, index, first, restrict, left, right, p),
        ));
        let earlier = if reads_left && left == right {
            after_reads(start, first, extra, Hand::Left)
        } else {
            start
        };
        let later = if reads_left && left == right {
            after_reads(begun, second, extra, Hand::Left)
        } else {
            begun
        };
        assert(synced_once(earlier, later, first, extra, Hand::Right));
        lemma_pass_calm(earlier, later, first, second, extra, Hand::Right, mid, mid_again, 0);
    }
}

/// A native boolean that is pressed wins over every custom binding: an
/// active state that is true stays as it is, whatever is merged into it.
pub proof fn lemma_pressed_wins(
    bindings: Seq<BindingData>,
    snapshot: &Snapshot,
    extra: ExtraActionData,
    hand: Hand,
    acc: ActionState<bool>,
    from: int,
)
    requires
        acc.current_state,
        acc.is_active,
    ensures
        read_all(bindings, snapshot, extra, hand, acc, from) == acc,
    decreases bindings.len() - from,
{
    if 0 <= from < bindings.len() {
        assert(merged(acc, bindings[from].read(snapshot, extra, hand).state) == acc);
        lemma_pressed_wins(bindings, snapshot, extra, hand, acc, from + 1);
    }
}

/// What the runtime reports for a boolean action that is pressed is what
/// a read of the action reports, whatever custom bindings the action
/// has.
pub proof fn lemma_pressed_is_read(
    loaded: LoadedActions,
    index: int,
    snapshot: &Snapshot,
    restrict: Option<Hand>,
    left: Option<Profile>,
    right: Option<Profile>,
    direct: ActionState<bool>,
)
    requires
        direct.current_state,
        direct.is_active,
    ensures
        digital_merge(loaded, index, snapshot, restrict, left, right, direct) == direct,
{
    let extra = loaded.actions@[index].extra;
    let reads_left = restrict != Some(Hand::Right) && left.is_some();
    let reads_right = restrict != Some(Hand::Left) && right.is_some();
    if reads_left {
        lemma_pressed_wins(
            loaded.bindings_of(index, left.unwrap()),
            snapshot,
            extra,
            Hand::Left,
            direct,
            0,
        );
    }
    if reads_right {
        let list = if reads_left && left == right {
            after_reads(loaded.bindings_of(index, left.unwrap()), snapshot, extra, Hand::Left)
        } else {
            loaded.bindings_of(index, right.unwrap())
        };
        lemma_pressed_wins(list, snapshot, extra, Hand::Right, direct, 0);
    }
}

/// A sync leaves each action the custom bindings it had for each
/// profile, each without its stored result.
pub proof fn lemma_unsynced_bindings(
    before: &LoadedActions,
    after: &LoadedActions,
    index: int,
    profile: Profile,
)
    requires
        after.is_unsynced_from(before),
        0 <= index < after.actions@.len(),
    ensures
        after.bindings_of(index, profile) == unsynced(before.bindings_of(index, profile)),
{
    lemma_unsynced_entries(
        before.actions@[index].bindings@,
        after.actions@[index].bindings@,
        profile,
        0,
    );
}

proof fn lemma_unsynced_entries(
    before: Seq<ProfileBindings>,
    after: Seq<ProfileBindings>,
    profile: Profile,
    from: int,
)
    requires
        0 <= from,
        after.len() == before.len(),
        forall|e: int|
            0 <= e < before.len() ==> (#[trigger] after[e]).profile == before[e].profile
                && after[e].bindings@ == unsynced(before[e].bindings@),
    ensures
        LoadedActions::bindings_in(after, profile, from) == unsynced(
            LoadedActions::bindings_in(before, profile, from),
        ),
    decreases before.len() - from,
{
    if from < before.len() {
        if before[from].profile != profile {
            lemma_unsynced_entries(before, after, profile, from + 1);
        }
    } else {
        assert(unsynced(Seq::<BindingData>::empty()) =~= Seq::<BindingData>::empty());
    }
}

} // verus!
