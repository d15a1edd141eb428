//! Implementations of `DeepClone` for integers and std's containers.
use vstd::prelude::*;

use std::collections::{HashMap, HashSet};
use std::hash::Hash;
use std::rc::Rc;
use std::sync::{Arc, Mutex, MutexGuard};

use crate::{DeepClone, DeepEqLaws};

verus! {

impl DeepClone for u8 {
    fn deep_clone(&self) -> (r: Self)
        ensures
            r == *self,
    {
        *self
    }
}

impl DeepEqLaws for u8 {
    proof fn lemma_deep_eq_transitive(a: &Self, b: &Self, c: &Self) {
    }
}

impl DeepClone for i8 {
    fn deep_clone(&self) -> (r: Self)
        ensures
            r == *self,
    {
        *self
    }
}

impl DeepEqLaws for i8 {
    proof fn lemma_deep_eq_transitive(a: &Self, b: &Self, c: &Self) {
    }
}

impl DeepClone for u16 {
    fn deep_clone(&self) -> (r: Self)
        ensures
            r == *self,
    {
        *self
    }
}

impl DeepEqLaws for u16 {
    proof fn lemma_deep_eq_transitive(a: &Self, b: &Self, c: &Self) {
    }
}

impl DeepClone for i16 {
    fn deep_clone(&self) -> (r: Self)
        ensures
            r == *self,
    {
        *self
    }
}

impl DeepEqLaws for i16 {
    proof fn lemma_deep_eq_transitive(a: &Self, b: &Self, c: &Self) {
    }
}

impl DeepClone for u32 {
    fn deep_clone(&self) -> (r: Self)
        ensures
            r == *self,
    {
        *self
    }
}

impl DeepEqLaws for u32 {
    proof fn lemma_deep_eq_transitive(a: &Self, b: &Self, c: &Self) {
    }
}

impl DeepClone for i32 {
    fn deep_clone(&self) -> (r: Self)
        ensures
            r == *self,
    {
        *self
    }
}

impl DeepEqLaws for i32 {
    proof fn lemma_deep_eq_transitive(a: &Self, b: &Self, c: &Self) {
    }
}

impl DeepClone for u64 {
    fn deep_clone(&self) -> (r: Self)
        ensures
            r == *self,
    {
        *self
    }
}

impl DeepEqLaws for u64 {
    proof fn lemma_deep_eq_transitive(a: &Self, b: &Self, c: &Self) {
    }
}

impl DeepClone for i64 {
    fn deep_clone(&self) -> (r: Self)
        ensures
            r == *self,
    {
        *self
    }
}

impl DeepEqLaws for i64 {
    proof fn lemma_deep_eq_transitive(a: &Self, b: &Self, c: &Self) {
    }
}

impl DeepClone for u128 {
    fn deep_clone(&self) -> (r: Self)
        ensures
            r == *self,
    {
        *self
    }
}

impl DeepEqLaws for u128 {
    proof fn lemma_deep_eq_transitive(a: &Self, b: &Self, c: &Self) {
    }
}

impl DeepClone for i128 {
    fn deep_clone(&self) -> (r: Self)
        ensures
            r == *self,
    {
        *self
    }
}

impl DeepEqLaws for i128 {
    proof fn lemma_deep_eq_transitive(a: &Self, b: &Self, c: &Self) {
    }
}

impl<T: DeepClone> DeepClone for Box<T> {
    /// Equality of the pointees: which allocation holds them is not part of it.
    open spec fn deep_eq(&self, other: &Self) -> bool {
        (**self).deep_eq(&**other)
    }

    open spec fn hash_keys_exact() -> bool {
        T::hash_keys_exact()
    }

    fn deep_clone(&self) -> (r: Self)
        ensures
            (*r).deep_eq(&**self),
    {
        Box::new((**self).deep_clone())
    }
}

impl<T: DeepEqLaws> DeepEqLaws for Box<T> {
    proof fn lemma_deep_eq_transitive(a: &Self, b: &Self, c: &Self) {
        T::lemma_deep_eq_transitive(&**a, &**b, &**c);
    }
}

impl<T: DeepClone> DeepClone for Rc<T> {
    /// Equality of the pointees: which allocation holds them is not part of it.
    open spec fn deep_eq(&self, other: &Self) -> bool {
        (**self).deep_eq(&**other)
    }

    open spec fn hash_keys_exact() -> bool {
        T::hash_keys_exact()
    }

    fn deep_clone(&self) -> (r: Self)
        ensures
            (*r).deep_eq(&**self),
    {
        Rc::new((**self).deep_clone())
    }
}

impl<T: DeepEqLaws> DeepEqLaws for Rc<T> {
    proof fn lemma_deep_eq_transitive(a: &Self, b: &Self, c: &Self) {
        T::lemma_deep_eq_transitive(&**a, &**b, &**c);
    }
}

impl<T: DeepClone> DeepClone for Arc<T> {
    /// Equality of the pointees: which allocation holds them is not part of it.
    open spec fn deep_eq(&self, other: &Self) -> bool {
        (**self).deep_eq(&**other)
    }

    open spec fn hash_keys_exact() -> bool {
        T::hash_keys_exact()
    }

    fn deep_clone(&self) -> (r: Self)
        ensures
            (*r).deep_eq(&**self),
    {
        Arc::new((**self).deep_clone())
    }
}

impl<T: DeepEqLaws> DeepEqLaws for Arc<T> {
    proof fn lemma_deep_eq_transitive(a: &Self, b: &Self, c: &Self) {
        T::lemma_deep_eq_transitive(&**a, &**b, &**c);
    }
}

#[verifier::external_type_specification]
#[verifier::external_body]
#[verifier::reject_recursive_types(T)]
pub struct ExMutex<T: ?Sized>(Mutex<T>);

#[verifier::external_type_specification]
#[verifier::external_body]
#[verifier::reject_recursive_types(T)]
pub struct ExMutexGuard<'a, T: ?Sized + 'a>(MutexGuard<'a, T>);

/// Relies on `Mutex::new`, which wraps a value in a new, unlocked lock.
pub assume_specification<T>[ Mutex::<T>::new ](t: T) -> Mutex<T>;

/// Relies on `Mutex::lock`: blocks until this thread holds the lock. A lock
/// that a panicking holder poisoned is not recovered from: the panic goes on.
#[verifier::external_body]
fn lock_or_panic<T>(m: &Mutex<T>) -> MutexGuard<'_, T> {
    m.lock().unwrap()
}

/// Relies on `Deref` for `MutexGuard`: the guarded value, while the guard lives.
#[verifier::external_body]
fn guarded<'a, 'b, T>(g: &'a MutexGuard<'b, T>) -> &'a T {
    &**g
}

/// Relies on `Mutex::get_mut`: an exclusive borrow of the lock reaches the
/// guarded value without locking. A poisoned lock panics, as in `lock_or_panic`.
#[verifier::external_body]
fn get_mut_or_panic<T>(m: &mut Mutex<T>) -> &mut T {
    m.get_mut().unwrap()
}

impl<T: DeepClone> DeepClone for Mutex<T> {
    /// A lock's guarded value sits behind interior mutability, which gives it
    /// no spec value: two locks are not told apart by what they guard.
    open spec fn deep_eq(&self, other: &Self) -> bool {
        true
    }

    open spec fn hash_keys_exact() -> bool {
        T::hash_keys_exact()
    }

    /// Locks the source, deep-copies what it guards, and wraps the copy in a
    /// new lock.
    fn deep_clone(&self) -> (r: Self) {
        let guard = lock_or_panic(self);
        let copy = guarded(&guard).deep_clone();
        Mutex::new(copy)
    }

    /// Holds the receiver exclusively and the source's lock, and syncs the
    /// guarded values in place. The receiver needs no lock, as `&mut` already
    /// excludes everyone else. Where the receiver is itself reached through a
    /// lock, the caller holds two locks taken in no fixed order: two threads
    /// syncing two locks from each other in opposite directions can deadlock.
    fn deep_clone_from(&mut self, source: &Self) {
        let inner = get_mut_or_panic(self);
        let guard = lock_or_panic(source);
        inner.deep_clone_from(guarded(&guard));
    }
}

impl<T: DeepClone> DeepEqLaws for Mutex<T> {
    proof fn lemma_deep_eq_transitive(a: &Self, b: &Self, c: &Self) {
    }
}

impl<T: DeepClone> DeepClone for Vec<T> {
    /// Same length, and elements deeply equal position by position.
    open spec fn deep_eq(&self, other: &Self) -> bool {
        &&& self@.len() == other@.len()
        &&& forall|i: int| 0 <= i < self@.len() ==> #[trigger] self@[i].deep_eq(&other@[i])
    }

    open spec fn hash_keys_exact() -> bool {
        T::hash_keys_exact()
    }

    fn deep_clone(&self) -> (r: Self)
        ensures
            r@.len() == self@.len(),
            forall|i: int| 0 <= i < self@.len() ==> #[trigger] r@[i].deep_eq(&self@[i]),
    {
        let mut r: Vec<T> = Vec::with_capacity(self.len());
        let mut i: usize = 0;
        while i < self.len()
            invariant
                T::hash_keys_exact(),
                i <= self@.len(),
                r@.len() == i,
                forall|j: int| 0 <= j < i ==> #[trigger] r@[j].deep_eq(&self@[j]),
            decreases self@.len() - i,
        {
            r.push(self[i].deep_clone());
            i += 1;
        }
        r
    }

    /// Syncs the elements that both hold in place, one by one, then drops the
    /// receiver's surplus or appends deep copies of the source's.
    fn deep_clone_from(&mut self, source: &Self)
        ensures
            final(self)@.len() == source@.len(),
            forall|i: int|
                0 <= i < source@.len() ==> #[trigger] final(self)@[i].deep_eq(&source@[i]),
    {
        let common: usize = if self.len() < source.len() {
            self.len()
        } else {
            source.len()
        };
        let mut i: usize = 0;
        while i < common
            invariant
                T::hash_keys_exact(),
                common <= self@.len(),
                common <= source@.len(),
                i <= common,
                forall|j: int| 0 <= j < i ==> #[trigger] self@[j].deep_eq(&source@[j]),
            decreases common - i,
        {
            self[i].deep_clone_from(&source[i]);
            i += 1;
        }
        self.truncate(common);
        while i < source.len()
            invariant
                T::hash_keys_exact(),
                common <= i <= source@.len(),
                self@.len() == i,
                forall|j: int| 0 <= j < i ==> #[trigger] self@[j].deep_eq(&source@[j]),
            decreases source@.len() - i,
        {
            self.push(source[i].deep_clone());
            i += 1;
        }
    }
}

impl<T: DeepEqLaws> DeepEqLaws for Vec<T> {
    proof fn lemma_deep_eq_transitive(a: &Self, b: &Self, c: &Self) {
        assert forall|i: int| 0 <= i < a@.len() implies #[trigger] a@[i].deep_eq(&c@[i]) by {
            T::lemma_deep_eq_transitive(&a@[i], &b@[i], &c@[i]);
        }
    }
}

/// Inserts a deep copy of each element of `src` into the empty `dst`.
fn insert_deep_clones<T: DeepClone + Hash + Eq>(dst: &mut HashSet<T>, src: &HashSet<T>)
    requires
        HashSet::<T>::hash_keys_exact(),
        old(dst)@ == Set::<T>::empty(),
    ensures
        final(dst)@ == src@,
{
    broadcast use vstd::std_specs::hash::group_hash_axioms;

    for x in it: src.iter()
        invariant
            HashSet::<T>::hash_keys_exact(),
            forall|t: T| #[trigger] dst@.contains(t) ==> src@.contains(t),
            forall|t: T|
                #[trigger] src@.contains(t) ==> dst@.contains(t) || exists|j: int|
                    it.index() <= j < it.seq().len() && *#[trigger] it.seq()[j] == t,
    {
        let c = x.deep_clone();
        dst.insert(c);
    }
    assert(dst@ =~= src@);
}

impl<T: DeepClone + Hash + Eq> DeepClone for HashSet<T> {
    /// Keys deep-copy to themselves, so deep equality is equality of the sets.
    open spec fn deep_eq(&self, other: &Self) -> bool {
        self@ == other@
    }

    open spec fn hash_keys_exact() -> bool {
        &&& T::hash_keys_exact()
        &&& vstd::std_specs::hash::obeys_key_model::<T>()
        &&& forall|a: T, b: T| #[trigger] a.deep_eq(&b) ==> a == b
    }

    fn deep_clone(&self) -> (r: Self)
        ensures
            r@ == self@,
    {
        let mut r: HashSet<T> = HashSet::new();
        insert_deep_clones(&mut r, self);
        r
    }

    /// Empties the receiver, then fills it with deep copies of the source's
    /// elements; no element of the receiver is reused.
    fn deep_clone_from(&mut self, source: &Self)
        ensures
            final(self)@ == source@,
    {
        self.clear();
        insert_deep_clones(self, source);
    }
}

impl<T: DeepClone + Hash + Eq> DeepEqLaws for HashSet<T> {
    proof fn lemma_deep_eq_transitive(a: &Self, b: &Self, c: &Self) {
    }
}

/// Inserts a deep copy of each entry of `src` into the empty `dst`.
fn insert_deep_clone_pairs<K: DeepClone + Hash + Eq, V: DeepClone>(
    dst: &mut HashMap<K, V>,
    src: &HashMap<K, V>,
)
    requires
        HashMap::<K, V>::hash_keys_exact(),
        old(dst)@ == Map::<K, V>::empty(),
    ensures
        final(dst)@.dom() == src@.dom(),
        forall|k: K| #[trigger] src@.contains_key(k) ==> final(dst)@[k].deep_eq(&src@[k]),
{
    broadcast use vstd::std_specs::hash::group_hash_axioms;

    let ghost entries = vstd::std_specs::iter::IteratorSpec::remaining(&src.iter());
    assert forall|k: K| #[trigger] src@.contains_key(k) implies exists|j: int|
        0 <= j < entries.len() && *#[trigger] entries[j].0 == k by {
        assert(entries.contains((&k, &src@[k])));
        let j = choose|j: int| 0 <= j < entries.len() && entries[j] == (&k, &src@[k]);
        assert(*entries[j].0 == k);
    }
    for kv in it: src.iter()
        invariant
            HashMap::<K, V>::hash_keys_exact(),
            forall|k: K|
                #[trigger] dst@.contains_key(k) ==> src@.contains_key(k) && dst@[k].deep_eq(
                    &src@[k],
                ),
            forall|k: K|
                #[trigger] src@.contains_key(k) ==> dst@.contains_key(k) || exists|j: int|
                    it.index() <= j < it.seq().len() && *#[trigger] it.seq()[j].0 == k,
    {
        let (k, v) = kv;
        let k2 = k.deep_clone();
        let v2 = v.deep_clone();
        dst.insert(k2, v2);
    }
    assert(dst@.dom() =~= src@.dom());
}

impl<K: DeepClone + Hash + Eq, V: DeepClone> DeepClone for HashMap<K, V> {
    /// Keys deep-copy to themselves: the same keys, with deeply equal values.
    open spec fn deep_eq(&self, other: &Self) -> bool {
        &&& self@.dom() == other@.dom()
        &&& forall|k: K| #[trigger] self@.contains_key(k) ==> self@[k].deep_eq(&other@[k])
    }

    open spec fn hash_keys_exact() -> bool {
        &&& K::hash_keys_exact()
        &&& V::hash_keys_exact()
        &&& vstd::std_specs::hash::obeys_key_model::<K>()
        &&& forall|a: K, b: K| #[trigger] a.deep_eq(&b) ==> a == b
    }

    fn deep_clone(&self) -> (r: Self)
        ensures
            r@.dom() == self@.dom(),
            forall|k: K| #[trigger] self@.contains_key(k) ==> r@[k].deep_eq(&self@[k]),
    {
        let mut r: HashMap<K, V> = HashMap::new();
        insert_deep_clone_pairs(&mut r, self);
        r
    }

    /// Empties the receiver, then fills it with deep copies of the source's
    /// entries; no entry of the receiver is reused.
    fn deep_clone_from(&mut self, source: &Self)
        ensures
            final(self)@.dom() == source@.dom(),
            forall|k: K|
                #[trigger] source@.contains_key(k) ==> final(self)@[k].deep_eq(&source@[k]),
    {
        self.clear();
        insert_deep_clone_pairs(self, source);
    }
}

impl<K: DeepClone + Hash + Eq, V: DeepEqLaws> DeepEqLaws for HashMap<K, V> {
    proof fn lemma_deep_eq_transitive(a: &Self, b: &Self, c: &Self) {
        assert forall|k: K| #[trigger] a@.contains_key(k) implies a@[k].deep_eq(&c@[k]) by {
            V::lemma_deep_eq_transitive(&a@[k], &b@[k], &c@[k]);
        }
    }
}

} // verus!
