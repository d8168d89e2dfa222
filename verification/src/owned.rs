use crate::compute::Memoize;
use crate::state::{cleared, readied, updated, CacheState};
use vstd::prelude::*;

verus! {

/// Memoized value that owns the parameter of its computation.
///
/// The parameter is passed in at construction and lives inside the cell, so
/// every access uses the same, current parameter and the inconsistent
/// parameter hazard of [`crate::MemoExt`] cannot arise.
///
/// The parameter can be read with [`Memo::param`] and changed with
/// [`Memo::param_mut`] or [`Memo::update_param`]. Both mutation paths clear
/// the cached value unconditionally — even if the caller does not actually
/// change the parameter through them — so the cell never needs to compare
/// parameter values to stay correct.
pub struct Memo<T: Memoize> {
    value: Option<T>,
    param: T::Param,
    calls: Ghost<nat>,
}

impl<T: Memoize> Memo<T> {
    /// The abstract state of the cell: the slot and the computation count.
    pub closed spec fn state(&self) -> CacheState<T> {
        CacheState { cached: self.value, computations: self.calls@ }
    }

    /// The parameter currently stored in the cell.
    pub closed spec fn param_view(&self) -> T::Param {
        self.param
    }

    /// Creates a new, stale `Memo` cell owning the parameter `p`.
    pub fn new(p: T::Param) -> (r: Self)
        ensures
            r.state().cached is None,
            r.state().computations == 0,
            r.param_view() == p,
    {
        Self { value: None, param: p, calls: Ghost(0) }
    }

    /// Clears any cached value, without computing anything.
    ///
    /// The value will be recomputed the next time it is needed.
    pub fn clear(&mut self)
        ensures
            final(self).state() == cleared(old(self).state()),
            final(self).param_view() == old(self).param_view(),
    {
        self.value = None
    }

    /// Returns whether there is a cached value.
    ///
    /// After `true`, the next `get` returns the stored value without
    /// computing; after `false`, the next `get` computes it.
    pub fn is_ready(&self) -> (r: bool)
        ensures
            r == (self.state().cached is Some),
    {
        self.value.is_some()
    }

    /// If no value is cached, computes one from the stored parameter and
    /// caches it.
    ///
    /// A stale cell performs exactly one computation; a fresh cell is left
    /// untouched.
    pub fn ready(&mut self)
        ensures
            final(self).state() == readied(old(self).state(), old(self).param_view()),
            final(self).param_view() == old(self).param_view(),
    {
        if self.value.is_none() {
            self.value = Some(T::compute(&self.param));
            self.calls = Ghost(self.calls@ + 1);
        }
    }

    /// Recomputes the value from the stored parameter unconditionally and
    /// caches it.
    ///
    /// This always performs exactly one computation, discarding any cached
    /// value. To recompute lazily on the next access, call [`Memo::clear`]
    /// instead.
    pub fn update(&mut self)
        ensures
            final(self).state() == updated(old(self).state(), old(self).param_view()),
            final(self).param_view() == old(self).param_view(),
    {
        self.value = Some(T::compute(&self.param));
        self.calls = Ghost(self.calls@ + 1);
    }

    /// Returns the value, computing it from the stored parameter first if it
    /// is not cached.
    ///
    /// Equivalent to [`Memo::ready`] followed by returning the cached value.
    pub fn get(&mut self) -> (r: &T)
        ensures
            final(self).state() == readied(old(self).state(), old(self).param_view()),
            final(self).param_view() == old(self).param_view(),
            final(self).state().cached == Some(*r),
    {
        self.ready();
        self.try_get().unwrap()
    }

    /// Returns the cached value if there is one, and `None` otherwise.
    ///
    /// This never computes and never changes the state of the cell, as the
    /// shared receiver already guarantees.
    pub fn try_get(&self) -> (r: Option<&T>)
        ensures
            match r {
                Some(v) => self.state().cached == Some(*v),
                None => self.state().cached is None,
            },
    {
        self.value.as_ref()
    }

    /// Returns a read-only reference to the stored parameter.
    ///
    /// This does not affect the cached value.
    pub fn param(&self) -> (r: &T::Param)
        ensures
            *r == self.param_view(),
    {
        &self.param
    }

    /// Returns a mutable reference to the stored parameter and clears any
    /// cached value.
    ///
    /// The clearing is unconditional: the handle permits arbitrary mutation,
    /// so the cell conservatively invalidates even if the caller never
    /// writes through it.
    pub fn param_mut(&mut self) -> (r: &mut T::Param)
        ensures
            *r == old(self).param_view(),
            final(self).param_view() == *final(r),
            final(self).state() == cleared(old(self).state()),
    {
        self.clear();
        &mut self.param
    }

    /// Applies `op` to the stored parameter in place, after clearing any
    /// cached value.
    ///
    /// The clearing is unconditional, whether or not `op` changes the
    /// parameter's value.
    pub fn update_param<F: FnOnce(&T::Param) -> T::Param>(&mut self, op: F)
        requires
            call_requires(op, (&old(self).param_view(),)),
        ensures
            final(self).state() == cleared(old(self).state()),
            call_ensures(op, (&old(self).param_view(),), final(self).param_view()),
    {
        self.clear();
        self.param = op(&self.param);
    }
}

} // verus!
