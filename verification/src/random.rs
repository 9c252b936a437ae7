//! A random index.
use std::hash::{BuildHasher, Hasher};
use vstd::prelude::*;

verus! {

/// `RandomState::new` makes a hasher factory with fresh keys. The keys are
/// chance: nothing is claimed of them.
pub assume_specification[ std::hash::RandomState::new ]() -> std::hash::RandomState
;

/// `RandomState::build_hasher` makes a hasher with the factory's keys. They are
/// chance: nothing is claimed of the hasher.
pub assume_specification[ <std::hash::RandomState as BuildHasher>::build_hasher ](
    state: &std::hash::RandomState,
) -> std::hash::DefaultHasher
;

/// The index below `n` that a random word stands for.
pub fn index_from(word: u64, n: usize) -> (i: usize)
    requires
        n > 0,
    ensures
        i as int == word as int % n as int,
        i < n,
{
    (word % (n as u64)) as usize
}

/// A random index below `n`. A new hasher's state varies from one to the next, so
/// its first output serves as the random word.
pub fn random_index(n: usize) -> (i: usize)
    requires
        n > 0,
    ensures
        i < n,
{
    let state = std::hash::RandomState::new();
    let hasher = state.build_hasher();
    index_from(hasher.finish(), n)
}

} // verus!
