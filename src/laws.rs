//! Laws that relate several deep copies to one another.
use vstd::prelude::*;

use crate::{DeepClone, DeepEqLaws};

verus! {

/// Deep copying is idempotent: a deep copy of a deep copy equals that copy,
/// and both equal the original.
pub proof fn lemma_deep_clone_idempotent<T: DeepEqLaws>(x: &T, once: &T, twice: &T)
    requires
        call_ensures(T::deep_clone, (x,), *once),
        call_ensures(T::deep_clone, (once,), *twice),
    ensures
        twice.deep_eq(once),
        once.deep_eq(x),
        twice.deep_eq(x),
{
    T::lemma_deep_eq_transitive(twice, once, x);
}

} // verus!
