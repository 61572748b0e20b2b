//! Opaque 64-bit handles for action sets, actions and input sources.
//!
//! The handles are the keys of a generational slot map, so a value that was
//! never issued, or whose slot has since been given out again, finds nothing.
//! Each table stores one path string per handle and never stores a path twice.
//! What is loaded for a handle is found through a secondary map from the same
//! keys to positions.

use slotmap::DefaultKey;
use slotmap::Key;
use slotmap::KeyData;
use slotmap::SecondaryMap;
use slotmap::SlotMap;
use vstd::prelude::*;

verus! {

/// A `slotmap::SlotMap` from its default keys to strings.
#[verifier::external_body]
pub struct Slots {
    inner: SlotMap<DefaultKey, String>,
}

/// What a slot map of strings holds: for each live key, taken as the 64-bit
/// value that `KeyData::as_ffi` gives it, the characters of its string.
pub uninterp spec fn slot_entries(map: Slots) -> Map<u64, Seq<char>>;

/// The value of the upper half that separates one generation from the next.
pub const GENERATION_UNIT: u64 = 0x1_0000_0000;

/// The 64-bit value of the key that `KeyData::from_ffi` makes of `value`:
/// the lower half is kept, and the upper half is made odd.
pub open spec fn canonical(value: u64) -> u64 {
    if (value / GENERATION_UNIT) % 2 == 1 {
        value
    } else {
        (value + GENERATION_UNIT) as u64
    }
}

/// `SlotMap::new`: a map that holds nothing.
#[verifier::external_body]
fn slots_new() -> (map: Slots)
    ensures
        slot_entries(map) == (Map::<u64, Seq<char>>::empty()),
{
    Slots { inner: SlotMap::new() }
}

/// `SlotMap::len`: the number of live keys.
#[verifier::external_body]
fn slots_len(map: &Slots) -> (n: usize)
    ensures
        n == slot_entries(*map).len(),
{
    map.inner.len()
}

/// The slot of a key: the lower half of its value.
pub open spec fn slot_of(key: u64) -> u64 {
    key % GENERATION_UNIT
}

/// `SlotMap::insert`, with the new key handed out through `KeyData::as_ffi`.
/// The key was not live before, its upper half is odd (so it is not 0 and
/// `from_ffi` gives it back unchanged), and nothing else in the map changes.
/// The key is given a slot that no live key has, and never the slot with
/// the largest number, which stands for no key. The map panics when all
/// of its slots are taken, which the bound excludes.
#[verifier::external_body]
fn slots_insert(map: &mut Slots, value: String) -> (handle: u64)
    requires
        slot_entries(*old(map)).dom().finite(),
        slot_entries(*old(map)).len() < 0xffff_fffe,
    ensures
        !slot_entries(*old(map)).contains_key(handle),
        canonical(handle) == handle,
        slot_of(handle) != 0xffff_ffff,
        forall|k: u64| #[trigger]
            slot_entries(*old(map)).contains_key(k) ==> slot_of(k) != slot_of(handle),
        slot_entries(*final(map)) == slot_entries(*old(map)).insert(handle, value@),
{
    map.inner.insert(value).data().as_ffi()
}

/// `SlotMap::get` on the key that `KeyData::from_ffi` makes of `handle`:
/// the string stored under that key, if the key is live.
#[verifier::external_body]
fn slots_get(map: &Slots, handle: u64) -> (found: Option<&String>)
    ensures
        found.is_some() == slot_entries(*map).contains_key(canonical(handle)),
        found.is_some() ==> found.unwrap()@ == slot_entries(*map)[canonical(handle)],
{
    map.inner.get(DefaultKey::from(KeyData::from_ffi(handle)))
}

/// `SlotMap::keys`, each key handed out through `KeyData::as_ffi`: every
/// live key once, in an order that is not stated.
#[verifier::external_body]
fn slots_keys(map: &Slots) -> (keys: Vec<u64>)
    ensures
        keys@.no_duplicates(),
        forall|h: u64| keys@.contains(h) <==> slot_entries(*map).contains_key(h),
{
    map.inner.keys().map(|k| k.data().as_ffi()).collect()
}

/// True when a table of handles is in order: it is finite, every handle
/// is a value that comes back unchanged from a lookup (so none is 0) and
/// has a slot of its own, and no path stands under two handles.
pub open spec fn table_ok(table: Map<u64, Seq<char>>) -> bool {
    &&& table.dom().finite()
    &&& forall|h: u64|
        #[trigger] table.contains_key(h) ==> canonical(h) == h && slot_of(h) != 0xffff_ffff
            && slot_owner(table, slot_of(h)) == h
    &&& forall|a: u64, b: u64|
        #![trigger table[a], table[b]]
        table.contains_key(a) && table.contains_key(b) && table[a] == table[b] ==> a == b
}

/// The handle of a table that has the slot `slot`, where one has it.
pub open spec fn slot_owner(table: Map<u64, Seq<char>>, slot: u64) -> u64 {
    choose|h: u64| table.contains_key(h) && slot_of(h) == slot
}

/// A `slotmap::SecondaryMap` from the default keys of a slot map to
/// positions in a list.
#[verifier::external_body]
pub struct Positions {
    inner: SecondaryMap<DefaultKey, usize>,
}

/// What a secondary map of positions holds: for each key that it has a
/// value for, taken as the 64-bit value that `KeyData::as_ffi` gives it,
/// that value.
pub uninterp spec fn position_entries(map: Positions) -> Map<u64, usize>;

/// `SecondaryMap::new`: a map that holds nothing.
#[verifier::external_body]
pub(crate) fn positions_new() -> (map: Positions)
    ensures
        position_entries(map) == (Map::<u64, usize>::empty()),
{
    Positions { inner: SecondaryMap::new() }
}

/// `SecondaryMap::insert` on the key that `KeyData::from_ffi` makes of
/// `handle`. The map keeps one value for each slot: where no other key
/// with the slot of `handle` has a value, the value is stored under
/// `handle`, and nothing else in the map changes. A key with the slot of
/// the largest number stands for no key and is not stored.
#[verifier::external_body]
pub(crate) fn positions_insert(map: &mut Positions, handle: u64, value: usize)
    requires
        canonical(handle) == handle,
        slot_of(handle) != 0xffff_ffff,
        forall|k: u64| #[trigger]
            position_entries(*old(map)).contains_key(k) && slot_of(k) == slot_of(handle) ==> k
                == handle,
    ensures
        position_entries(*final(map)) == position_entries(*old(map)).insert(handle, value),
{
    map.inner.insert(DefaultKey::from(KeyData::from_ffi(handle)), value);
}

/// `SecondaryMap::get` on the key that `KeyData::from_ffi` makes of
/// `handle`: the value stored under that key, if there is one.
#[verifier::external_body]
pub(crate) fn positions_get(map: &Positions, handle: u64) -> (found: Option<usize>)
    ensures
        found.is_some() == position_entries(*map).contains_key(canonical(handle)),
        found.is_some() ==> found.unwrap() == position_entries(*map)[canonical(handle)],
{
    map.inner.get(DefaultKey::from(KeyData::from_ffi(handle))).copied()
}

/// A table from handles to path strings.
pub struct HandleMap {
    slots: Slots,
}

impl HandleMap {
    /// The live handles, each with the characters of its path.
    pub closed spec fn view(&self) -> Map<u64, Seq<char>> {
        slot_entries(self.slots)
    }

    /// Every handle is a value that comes back unchanged from a lookup,
    /// none is 0, and no path is stored under two handles.
    pub open spec fn wf(&self) -> bool {
        table_ok(self@)
    }

    /// True when some handle stands for `path`.
    pub open spec fn has_path(&self, path: Seq<char>) -> bool {
        exists|h: u64| self@.contains_key(h) && #[trigger] self@[h] == path
    }

    /// The handle that stands for `path`, where `has_path(path)`.
    pub open spec fn handle_of(&self, path: Seq<char>) -> u64 {
        choose|h: u64| self@.contains_key(h) && #[trigger] self@[h] == path
    }

    /// True when every handle of `before` still stands for the same path.
    pub open spec fn extends(&self, before: &HandleMap) -> bool {
        forall|h: u64|
            #[trigger] before@.contains_key(h) ==> self@.contains_key(h) && self@[h] == before@[h]
    }

    /// The largest number of handles a table can hold.
    pub open spec fn capacity() -> nat {
        0xffff_fffe
    }

    /// An empty table.
    pub fn new() -> (r: HandleMap)
        ensures
            r.wf(),
            r@ == (Map::<u64, Seq<char>>::empty()),
    {
        HandleMap { slots: slots_new() }
    }

    /// The number of handles issued.
    pub fn len(&self) -> (n: usize)
        requires
            self.wf(),
        ensures
            n == self@.len(),
    {
        slots_len(&self.slots)
    }

    /// The path that `handle` stands for. A value that is no live handle
    /// finds `None`; a live handle is found under its own value and under
    /// that value with an even upper half.
    pub fn get(&self, handle: u64) -> (found: Option<&String>)
        requires
            self.wf(),
        ensures
            found.is_some() == self@.contains_key(canonical(handle)),
            found.is_some() ==> found.unwrap()@ == self@[canonical(handle)],
    {
        slots_get(&self.slots, handle)
    }

    /// Tells whether `handle` finds a path.
    pub fn contains(&self, handle: u64) -> (r: bool)
        requires
            self.wf(),
        ensures
            r == self@.contains_key(canonical(handle)),
    {
        slots_get(&self.slots, handle).is_some()
    }

    /// The handle that stands for `path`, if one was issued.
    pub fn find(&self, path: &String) -> (found: Option<u64>)
        requires
            self.wf(),
        ensures
            found.is_some() == self.has_path(path@),
            found.is_some() ==> found.unwrap() == self.handle_of(path@),
            found.is_some() ==> self@.contains_key(found.unwrap()) && self@[found.unwrap()]
                == path@,
    {
        let keys = slots_keys(&self.slots);
        let mut i: usize = 0;
        while i < keys.len()
            invariant
                self.wf(),
                i <= keys.len(),
                forall|h: u64| keys@.contains(h) <==> self@.contains_key(h),
                forall|j: int| 0 <= j < i ==> self@[#[trigger] keys@[j]] != path@,
            decreases keys.len() - i,
        {
            let k: u64 = keys[i];
            assert(keys@.contains(k));
            let stored = slots_get(&self.slots, k);
            if stored.is_some() && stored.unwrap().eq(path) {
                assert(self@.contains_key(k) && self@[k] == path@);
                return Some(k);
            }
            i += 1;
        }
        assert forall|h: u64| self@.contains_key(h) implies #[trigger] self@[h] != path@ by {
            assert(keys@.contains(h));
            let j = choose|j: int| 0 <= j < keys@.len() && keys@[j] == h;
            assert(self@[keys@[j]] != path@);
        }
        None
    }

    /// Gives `path` a handle: the one it already has, or a new one that no
    /// path had before. Returns `None`, and changes nothing, only when the
    /// path is new and the table is full.
    pub fn intern(&mut self, path: String) -> (issued: Option<u64>)
        requires
            old(self).wf(),
        ensures
            final(self).wf(),
            old(self).has_path(path@) ==> issued == Some(old(self).handle_of(path@))
                && final(self)@ == old(self)@,
            !old(self).has_path(path@) && old(self)@.len() < Self::capacity() ==> issued.is_some()
                && !old(self)@.contains_key(issued.unwrap()) && final(self)@ == old(self)@.insert(
                issued.unwrap(),
                path@,
            ),
            !old(self).has_path(path@) && old(self)@.len() >= Self::capacity() ==> issued.is_none()
                && final(self)@ == old(self)@,
            issued.is_some() ==> issued.unwrap() != 0 && final(self)@.contains_key(issued.unwrap())
                && final(self)@[issued.unwrap()] == path@,
            final(self).extends(old(self)),
            final(self)@.len() <= old(self)@.len() + 1,
    {
        let existing = self.find(&path);
        if existing.is_some() {
            proof {
                lemma_canonical_nonzero(existing.unwrap());
            }
            return existing;
        }
        if slots_len(&self.slots) >= 0xffff_fffe {
            return None;
        }
        let handle: u64 = slots_insert(&mut self.slots, path);
        proof {
            lemma_canonical_nonzero(handle);
        }
        Some(handle)
    }
}

/// A value with an odd upper half is not 0.
pub proof fn lemma_canonical_nonzero(h: u64)
    requires
        canonical(h) == h,
    ensures
        h != 0,
{
}

/// Makes the value under which a lookup finds `value`: the lower half is
/// kept, and the upper half is made odd.
pub fn canonicalize(value: u64) -> (r: u64)
    ensures
        r == canonical(value),
        canonical(r) == r,
{
    if (value / GENERATION_UNIT) % 2 == 1 {
        value
    } else {
        value + GENERATION_UNIT
    }
}

/// A handle stays what it is: in a table that still holds every handle
/// of an earlier one, a path that had a handle has the same handle.
pub proof fn lemma_handle_stable(before: &HandleMap, after: &HandleMap, path: Seq<char>)
    requires
        after.wf(),
        after.extends(before),
        before.has_path(path),
    ensures
        after.has_path(path),
        after.handle_of(path) == before.handle_of(path),
{
    let h = before.handle_of(path);
    assert(before@.contains_key(h) && before@[h] == path);
    assert(after@.contains_key(h) && after@[h] == path);
    let g = after.handle_of(path);
    assert(after@.contains_key(g) && after@[g] == path);
    assert(after@[g] == after@[h]);
}

/// A handle is never handed out twice. Handles are not given back, so a
/// table holds every handle that it has ever issued; a handle that is
/// issued for a new path is none of them, and it is not 0.
pub proof fn lemma_handles_never_alias(earlier: &HandleMap, table: &HandleMap, held: u64, issued: u64)
    requires
        table.wf(),
        table.extends(earlier),
        earlier@.contains_key(held),
        !table@.contains_key(issued),
        canonical(issued) == issued,
    ensures
        issued != held,
        issued != 0,
        held != 0,
{
    lemma_canonical_nonzero(issued);
    assert(table@.contains_key(held));
    lemma_canonical_nonzero(held);
}

} // verus!
