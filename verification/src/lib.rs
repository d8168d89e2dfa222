//! A small, allocation-free primitive for lazy evaluation and memoization.
//!
//! A computation is described by a type implementing [`Memoize`]: how to
//! produce a value from a read-only view of a parameter. Three cache cells
//! wrap such a computation and differ only in how they hold the parameter:
//!
//! - [`MemoExt`] holds no parameter; the caller supplies it at each access
//!   and must call `clear` itself whenever the logical parameter changes.
//! - [`Memo`] owns the parameter and invalidates the cached value on every
//!   access path that could mutate it.
//! - [`MemoOnce`] borrows the parameter for its whole lifetime, so the
//!   parameter cannot change while the cell is alive.
//!
//! All three follow one state machine over the slot holding the cached
//! value: a cell starts stale, becomes fresh by computing exactly once, and
//! falls back to stale on invalidation. The abstract form of that machine
//! lives in [`state`], together with proofs of its laws; every method's
//! contract is stated as a transition of that machine, including how many
//! times the computation has run.
//!
//! Access is always an explicit call that returns a reference; there is no
//! implicit conversion that could hide a potentially expensive computation.

pub mod compute;
pub mod ext;
pub mod once;
pub mod owned;
pub mod state;

pub use compute::Memoize;
pub use ext::MemoExt;
pub use once::MemoOnce;
pub use owned::Memo;
