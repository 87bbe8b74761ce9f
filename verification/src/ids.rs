use vstd::prelude::*;

verus! {

/// A typed identifier of an asset, used as the sole pipeline-cache key.
///
/// The same asset always carries the same identifier for the lifetime of the
/// process, and two different assets never share one; the store that hands
/// the identifiers out owes that stability, the cache only relies on it.
#[verifier::reject_recursive_types(T)]
#[derive(Debug)]
pub struct Id<T> {
    value: u64,
    of: core::marker::PhantomData<T>,
}

impl<T> Id<T> {
    /// The raw key behind the identifier.
    pub closed spec fn key(&self) -> u64 {
        self.value
    }

    /// Wraps a raw key.
    pub fn new(value: u64) -> (r: Self)
        ensures
            r.key() == value,
    {
        Id { value, of: core::marker::PhantomData }
    }

    /// Reads the raw key back.
    pub fn value(&self) -> (r: u64)
        ensures
            r == self.key(),
    {
        self.value
    }
}

impl<T> Clone for Id<T> {
    fn clone(&self) -> (r: Self)
        ensures
            r == *self,
    {
        Id { value: self.value, of: core::marker::PhantomData }
    }
}

impl<T> Copy for Id<T> {}

impl<T> Default for Id<T> {
    /// The null identifier, key zero.
    fn default() -> (r: Self)
        ensures
            r.key() == 0,
    {
        Id { value: 0, of: core::marker::PhantomData }
    }
}

} // verus!
