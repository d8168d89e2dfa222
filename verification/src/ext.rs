use crate::compute::Memoize;
use crate::state::{cleared, readied, updated, CacheState};
use vstd::prelude::*;

verus! {

/// Memoized value whose parameter is supplied externally at each access.
///
/// This cell does not keep track of the parameter of its computation: the
/// caller passes it to every call of [`MemoExt::ready`], [`MemoExt::update`]
/// and [`MemoExt::get`]. That gives full freedom over where the parameter
/// lives, at a price: the cell cannot notice that the parameter changed.
///
/// The caller must call [`MemoExt::clear`] whenever the logical parameter
/// changes. A fresh cell returns its cached value *silently*, even when a
/// later access passes a different parameter — the contracts below state
/// this exactly: a ready cell is left untouched whatever parameter comes in.
/// Prefer [`crate::Memo`] or [`crate::MemoOnce`] unless this flexibility is
/// needed.
pub struct MemoExt<T: Memoize> {
    value: Option<T>,
    calls: Ghost<nat>,
}

impl<T: Memoize> MemoExt<T> {
    /// The abstract state of the cell: the slot and the computation count.
    pub closed spec fn state(&self) -> CacheState<T> {
        CacheState { cached: self.value, computations: self.calls@ }
    }

    /// Creates a new, stale `MemoExt` cell that has computed nothing yet.
    pub fn new() -> (r: Self)
        ensures
            r.state().cached is None,
            r.state().computations == 0,
    {
        Self { value: None, calls: Ghost(0) }
    }

    /// Clears any cached value, without computing anything.
    ///
    /// The value will be recomputed the next time it is needed. Call this
    /// whenever the parameter you pass to the accessors changes.
    pub fn clear(&mut self)
        ensures
            final(self).state() == cleared(old(self).state()),
    {
        self.value = None
    }

    /// Returns whether there is a cached value.
    ///
    /// After `true`, the next `get` returns the stored value without
    /// computing; after `false`, the next `get` computes it.
    pub fn is_ready(&self) -> (r: bool)
        ensures
            r == (self.state().cached is Some),
    {
        self.value.is_some()
    }

    /// If no value is cached, computes one from `p` and caches it.
    ///
    /// A stale cell performs exactly one computation; a fresh cell is left
    /// untouched, even when `p` differs from the parameter the cached value
    /// was computed from.
    pub fn ready(&mut self, p: &T::Param)
        ensures
            final(self).state() == readied(old(self).state(), *p),
    {
        if self.value.is_none() {
            self.value = Some(T::compute(p));
            self.calls = Ghost(self.calls@ + 1);
        }
    }

    /// Recomputes the value from `p` unconditionally and caches it.
    ///
    /// This always performs exactly one computation, discarding any cached
    /// value. To recompute lazily on the next access, call
    /// [`MemoExt::clear`] instead.
    pub fn update(&mut self, p: &T::Param)
        ensures
            final(self).state() == updated(old(self).state(), *p),
    {
        self.value = Some(T::compute(p));
        self.calls = Ghost(self.calls@ + 1);
    }

    /// Returns the value, computing it from `p` first if it is not cached.
    ///
    /// Equivalent to [`MemoExt::ready`] followed by returning the cached
    /// value: a fresh cell returns the stored value — whatever parameter it
    /// was computed from — and performs no computation.
    pub fn get(&mut self, p: &T::Param) -> (r: &T)
        ensures
            final(self).state() == readied(old(self).state(), *p),
            final(self).state().cached == Some(*r),
    {
        self.ready(p);
        self.try_get().unwrap()
    }

    /// Returns the cached value if there is one, and `None` otherwise.
    ///
    /// This never computes and never changes the state of the cell, as the
    /// shared receiver already guarantees.
    pub fn try_get(&self) -> (r: Option<&T>)
        ensures
            match r {
                Some(v) => self.state().cached == Some(*v),
                None => self.state().cached is None,
            },
    {
        self.value.as_ref()
    }
}

} // verus!
