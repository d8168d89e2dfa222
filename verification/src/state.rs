use crate::compute::Memoize;
use vstd::prelude::*;

verus! {

/// The abstract state of a cache cell, shared by all three cell variants.
///
/// `cached` is the slot: `Some(v)` means the cell is fresh and holds `v`,
/// `None` means it is stale and the next access that needs the value will
/// compute it. `computations` counts how many times the cell has invoked the
/// computation since it was created; the cells' contracts are stated in
/// terms of it, so that "how often does this operation compute?" is a
/// verified fact and not only a tested one.
pub ghost struct CacheState<T> {
    /// The cached result; `None` means stale.
    pub cached: Option<T>,
    /// How many times the computation has run so far.
    pub computations: nat,
}

/// The state after clearing: the slot is emptied, nothing is computed.
pub open spec fn cleared<T>(s: CacheState<T>) -> CacheState<T> {
    CacheState { cached: None, computations: s.computations }
}

/// The state after an unconditional recomputation with parameter `p`:
/// whatever the slot held is overwritten and one computation is performed.
pub open spec fn updated<T: Memoize>(s: CacheState<T>, p: T::Param) -> CacheState<T> {
    CacheState { cached: Some(T::spec_compute(p)), computations: s.computations + 1 }
}

/// The state after making the cell ready with parameter `p`: a fresh cell is
/// left untouched — even if `p` differs from the parameter the slot was
/// computed from — and a stale cell computes once.
pub open spec fn readied<T: Memoize>(s: CacheState<T>, p: T::Param) -> CacheState<T> {
    if s.cached is Some {
        s
    } else {
        updated(s, p)
    }
}

/// `n` consecutive ready operations with parameter `p`.
pub open spec fn readied_n<T: Memoize>(s: CacheState<T>, p: T::Param, n: nat) -> CacheState<T>
    decreases n,
{
    if n == 0 {
        s
    } else {
        readied(readied_n(s, p, (n - 1) as nat), p)
    }
}

/// `n` consecutive unconditional recomputations with parameter `p`.
pub open spec fn updated_n<T: Memoize>(s: CacheState<T>, p: T::Param, n: nat) -> CacheState<T>
    decreases n,
{
    if n == 0 {
        s
    } else {
        updated(updated_n(s, p, (n - 1) as nat), p)
    }
}

/// Freshness: after a ready operation the cell is fresh and the slot holds
/// the value computed from the parameter that was supplied while it was
/// stale; a further ready operation — with any parameter — changes nothing,
/// so in particular it performs no computation.
pub proof fn lemma_freshness<T: Memoize>(s: CacheState<T>, p: T::Param, q: T::Param)
    ensures
        readied(s, p).cached is Some,
        s.cached is None ==> readied(s, p).cached == Some(T::spec_compute(p)),
        readied(readied(s, p), q) == readied(s, p),
{
}

/// Invalidation: clearing makes the cell stale without computing anything,
/// and the next ready operation performs exactly one computation and fills
/// the slot from the supplied parameter.
pub proof fn lemma_invalidation<T: Memoize>(s: CacheState<T>, p: T::Param)
    ensures
        cleared(s).cached is None,
        cleared(s).computations == s.computations,
        readied(cleared(s), p).computations == s.computations + 1,
        readied(cleared(s), p).cached == Some(T::spec_compute(p)),
{
}

/// Idempotent readiness: any run of `n >= 1` consecutive ready operations
/// performs exactly one computation if the cell starts stale, and none if it
/// starts fresh, and ends in the same state as a single ready operation.
pub proof fn lemma_idempotent_readiness<T: Memoize>(s: CacheState<T>, p: T::Param, n: nat)
    requires
        1 <= n,
    ensures
        readied_n(s, p, n) == readied(s, p),
        readied_n(s, p, n).computations == s.computations + (
        if s.cached is Some {
            0nat
        } else {
            1nat
        }),
    decreases n,
{
    if n == 1 {
        assert(readied_n(s, p, 1) == readied(readied_n(s, p, 0), p));
        assert(readied_n(s, p, 0) == s);
    } else {
        lemma_idempotent_readiness(s, p, (n - 1) as nat);
        assert(readied_n(s, p, n) == readied(readied(s, p), p));
    }
}

/// Forced updates always recompute: a run of `m` unconditional
/// recomputations performs exactly `m` computations, although the cell is
/// fresh throughout from the first one on.
pub proof fn lemma_update_always_recomputes<T: Memoize>(s: CacheState<T>, p: T::Param, m: nat)
    ensures
        updated_n(s, p, m).computations == s.computations + m,
        1 <= m ==> updated_n(s, p, m).cached == Some(T::spec_compute(p)),
    decreases m,
{
    if m > 0 {
        lemma_update_always_recomputes(s, p, (m - 1) as nat);
    }
}

} // verus!
