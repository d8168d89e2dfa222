use crate::compute::Memoize;
use crate::state::{cleared, readied, updated, CacheState};
use vstd::prelude::*;

verus! {

/// Memoized value that borrows the parameter of its computation.
///
/// The cell holds a shared reference to a parameter owned elsewhere, bound
/// at construction. For as long as the cell is alive the borrow checker
/// keeps the owner from mutating the parameter through any other path, so
/// every access uses the same parameter value and there is no mutation entry
/// point here. Intended for short-lived, one-shot lazy evaluation scopes.
pub struct MemoOnce<'p, T: Memoize> {
    value: Option<T>,
    param: &'p T::Param,
    calls: Ghost<nat>,
}

impl<'p, T: Memoize> MemoOnce<'p, T> {
    /// The abstract state of the cell: the slot and the computation count.
    pub closed spec fn state(&self) -> CacheState<T> {
        CacheState { cached: self.value, computations: self.calls@ }
    }

    /// The parameter the cell borrows.
    pub closed spec fn param_view(&self) -> T::Param {
        *self.param
    }

    /// Creates a new, stale `MemoOnce` cell borrowing the parameter `p`.
    pub fn new(p: &'p T::Param) -> (r: Self)
        ensures
            r.state().cached is None,
            r.state().computations == 0,
            r.param_view() == *p,
    {
        Self { value: None, param: p, calls: Ghost(0) }
    }

    /// Clears any cached value, without computing anything.
    ///
    /// The value will be recomputed the next time it is needed.
    pub fn clear(&mut self)
        ensures
            final(self).state() == cleared(old(self).state()),
            final(self).param_view() == old(self).param_view(),
    {
        self.value = None
    }

    /// Returns whether there is a cached value.
    ///
    /// After `true`, the next `get` returns the stored value without
    /// computing; after `false`, the next `get` computes it.
    pub fn is_ready(&self) -> (r: bool)
        ensures
            r == (self.state().cached is Some),
    {
        self.value.is_some()
    }

    /// If no value is cached, computes one from the borrowed parameter and
    /// caches it.
    ///
    /// A stale cell performs exactly one computation; a fresh cell is left
    /// untouched.
    pub fn ready(&mut self)
        ensures
            final(self).state() == readied(old(self).state(), old(self).param_view()),
            final(self).param_view() == old(self).param_view(),
    {
        if self.value.is_none() {
            self.value = Some(T::compute(self.param));
            self.calls = Ghost(self.calls@ + 1);
        }
    }

    /// Recomputes the value from the borrowed parameter unconditionally and
    /// caches it.
    ///
    /// This always performs exactly one computation, discarding any cached
    /// value. To recompute lazily on the next access, call
    /// [`MemoOnce::clear`] instead.
    pub fn update(&mut self)
        ensures
            final(self).state() == updated(old(self).state(), old(self).param_view()),
            final(self).param_view() == old(self).param_view(),
    {
        self.value = Some(T::compute(self.param));
        self.calls = Ghost(self.calls@ + 1);
    }

    /// Returns the value, computing it from the borrowed parameter first if
    /// it is not cached.
    ///
    /// Equivalent to [`MemoOnce::ready`] followed by returning the cached
    /// value.
    pub fn get(&mut self) -> (r: &T)
        ensures
            final(self).state() == readied(old(self).state(), old(self).param_view()),
            final(self).param_view() == old(self).param_view(),
            final(self).state().cached == Some(*r),
    {
        self.ready();
        self.try_get().unwrap()
    }

    /// Returns the cached value if there is one, and `None` otherwise.
    ///
    /// This never computes and never changes the state of the cell, as the
    /// shared receiver already guarantees.
    pub fn try_get(&self) -> (r: Option<&T>)
        ensures
            match r {
                Some(v) => self.state().cached == Some(*v),
                None => self.state().cached is None,
            },
    {
        self.value.as_ref()
    }

    /// Returns a read-only reference to the borrowed parameter.
    ///
    /// This does not affect the cached value.
    pub fn param(&self) -> (r: &T::Param)
        ensures
            *r == self.param_view(),
    {
        self.param
    }
}

} // verus!
