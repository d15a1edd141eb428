//! Deep copies of a value's whole ownership graph, and in-place syncing of an
//! existing value from another that reuses what the receiver already holds.
use vstd::prelude::*;

pub mod laws;
mod std_impls;

verus! {

/// A type whose values can be deep-copied.
///
/// The contract is stated over `deep_eq`, the equality that a deep copy
/// preserves: each implementation says what its values are equal in.
pub trait DeepClone: Sized {
    /// The equality that `deep_clone` and `deep_clone_from` promise; by
    /// default Verus's own equality.
    open spec fn deep_eq(&self, other: &Self) -> bool {
        *self == *other
    }

    /// Holds when every type used as a hash key inside `Self` hashes and
    /// compares as Verus's equality does (vstd's key model), and its deep
    /// equality is plain equality. Types that hold no hash collection have it
    /// unconditionally, which is the default.
    open spec fn hash_keys_exact() -> bool {
        true
    }

    /// A new value equal to `self` that shares no mutable state with it.
    #[must_use]
    fn deep_clone(&self) -> (r: Self)
        requires
            Self::hash_keys_exact(),
        ensures
            r.deep_eq(self),
    ;

    /// Makes `self` equal to `source`, reusing what `self` already holds where
    /// the implementation can; by default it replaces `self` with a deep copy.
    fn deep_clone_from(&mut self, source: &Self)
        requires
            Self::hash_keys_exact(),
        ensures
            final(self).deep_eq(source),
    {
        *self = source.deep_clone();
    }
}

/// Laws of a type's deep equality, proved once per type.
pub trait DeepEqLaws: DeepClone {
    /// Deep equality is transitive.
    proof fn lemma_deep_eq_transitive(a: &Self, b: &Self, c: &Self)
        requires
            a.deep_eq(b),
            b.deep_eq(c),
        ensures
            a.deep_eq(c),
    ;
}

} // verus!
