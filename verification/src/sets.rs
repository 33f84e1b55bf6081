//! Sets of ids on `rustc_hash`'s hash set.
//!
//! Every function of the set itself is believed, not proved: its doc comment names the outside
//! function and says what is claimed of it.

use rustc_hash::{FxHashSet, FxHasher};
use std::hash::{BuildHasherDefault, Hash};
use vstd::prelude::*;

verus! {

broadcast use vstd::std_specs::hash::group_hash_axioms;

/// `rustc_hash::FxHasher`.
#[verifier::external_type_specification]
#[verifier::external_body]
pub struct ExFxHasher(FxHasher);

/// `std::hash::BuildHasherDefault`.
#[verifier::external_type_specification]
#[verifier::external_body]
#[verifier::reject_recursive_types(H)]
pub struct ExBuildHasherDefault<H>(BuildHasherDefault<H>);

/// `rustc_hash::FxHashSet::insert`: afterwards the set holds the key and what it held before; the
/// result says whether the key is new.
#[verifier::external_body]
fn fx_insert<K: Eq + Hash>(set: &mut FxHashSet<K>, key: K) -> (inserted: bool)
    requires
        vstd::std_specs::hash::obeys_key_model::<K>(),
    ensures
        final(set)@ == old(set)@.insert(key),
        inserted == !old(set)@.contains(key),
{
    set.insert(key)
}

/// `rustc_hash::FxHashSet::remove`: afterwards the set holds what it held before but the key; the
/// result says whether it held the key.
#[verifier::external_body]
fn fx_remove<K: Eq + Hash>(set: &mut FxHashSet<K>, key: K) -> (removed: bool)
    requires
        vstd::std_specs::hash::obeys_key_model::<K>(),
    ensures
        final(set)@ == old(set)@.remove(key),
        removed == old(set)@.contains(key),
{
    set.remove(&key)
}

/// `rustc_hash::FxHashSet::contains`: whether the set holds the key.
#[verifier::external_body]
fn fx_contains<K: Eq + Hash>(set: &FxHashSet<K>, key: K) -> (res: bool)
    requires
        vstd::std_specs::hash::obeys_key_model::<K>(),
    ensures
        res == set@.contains(key),
{
    set.contains(&key)
}

/// `rustc_hash::FxHashSet::iter`: every key of the set once, in an order that is left open.
#[verifier::external_body]
fn fx_keys<K: Copy>(set: &FxHashSet<K>) -> (keys: Vec<K>)
    requires
        vstd::std_specs::hash::obeys_key_model::<K>(),
    ensures
        keys@.no_duplicates(),
        keys@.to_set() == set@,
{
    set.iter().copied().collect()
}

/// The ids of the requests that a worker has in hand and nobody has answered.
pub struct PendingRequests {
    ids: FxHashSet<u64>,
}

impl View for PendingRequests {
    type V = Set<u64>;

    closed spec fn view(&self) -> Set<u64> {
        self.ids@
    }
}

impl PendingRequests {
    /// No request is pending.
    pub fn new() -> (pending: PendingRequests)
        ensures
            pending@ == Set::<u64>::empty(),
    {
        PendingRequests { ids: FxHashSet::default() }
    }

    /// Adds a request; says whether it is new.
    pub fn insert(&mut self, id: u64) -> (inserted: bool)
        ensures
            final(self)@ == old(self)@.insert(id),
            inserted == !old(self)@.contains(id),
    {
        fx_insert(&mut self.ids, id)
    }

    /// Takes a request away; says whether it was there.
    pub fn remove(&mut self, id: u64) -> (removed: bool)
        ensures
            final(self)@ == old(self)@.remove(id),
            removed == old(self)@.contains(id),
    {
        fx_remove(&mut self.ids, id)
    }

    /// Whether the request is pending.
    pub fn contains(&self, id: u64) -> (res: bool)
        ensures
            res == self@.contains(id),
    {
        fx_contains(&self.ids, id)
    }
}

/// A file, by the number that the virtual file system gave it.
#[derive(Debug, Clone, Copy, PartialEq, Eq, Structural)]
pub struct FileId(pub u32);

/// The files that the client has open, and is kept informed of.
pub struct Subscriptions {
    files: FxHashSet<u32>,
}

impl View for Subscriptions {
    type V = Set<u32>;

    closed spec fn view(&self) -> Set<u32> {
        self.files@
    }
}

impl Subscriptions {
    /// No file is subscribed.
    pub fn new() -> (subs: Subscriptions)
        ensures
            subs@ == Set::<u32>::empty(),
    {
        Subscriptions { files: FxHashSet::default() }
    }

    /// Subscribes a file.
    pub fn add_sub(&mut self, file: FileId)
        ensures
            final(self)@ == old(self)@.insert(file.0),
    {
        let _ = fx_insert(&mut self.files, file.0);
    }

    /// Ends the subscription of a file.
    pub fn remove_sub(&mut self, file: FileId)
        ensures
            final(self)@ == old(self)@.remove(file.0),
    {
        let _ = fx_remove(&mut self.files, file.0);
    }

    /// The subscribed files, each once, in no particular order.
    pub fn subscriptions(&self) -> (files: Vec<FileId>)
        ensures
            files@.no_duplicates(),
            forall|n: u32| #[trigger] self@.contains(n) <==> files@.contains(FileId(n)),
    {
        let keys = fx_keys(&self.files);
        let mut files: Vec<FileId> = Vec::new();
        let mut i: usize = 0;
        while i < keys.len()
            invariant
                i <= keys.len(),
                files@ == keys@.take(i as int).map_values(|n: u32| FileId(n)),
            decreases keys.len() - i,
        {
            files.push(FileId(keys[i]));
            i = i + 1;
            assert(files@ == keys@.take(i as int).map_values(|n: u32| FileId(n)));
        }
        proof {
            assert(keys@.take(i as int) == keys@);
            assert forall|n: u32| self@.contains(n) implies files@.contains(FileId(n)) by {
                assert(keys@.to_set().contains(n));
                let k = choose|k: int| 0 <= k < keys@.len() && keys@[k] == n;
                assert(files@[k] == FileId(n));
            }
            assert forall|n: u32| files@.contains(FileId(n)) implies self@.contains(n) by {
                let k = choose|k: int| 0 <= k < files@.len() && files@[k] == FileId(n);
                assert(keys@[k] == n);
                assert(keys@.to_set().contains(n));
            }
        }
        files
    }
}

} // verus!
