use vstd::prelude::*;

verus! {

/// A computation that is to be memoized.
///
/// Implement this trait on the type that represents the *output* of the
/// computation; the associated type [`Memoize::Param`] is its input. The
/// caching cells [`crate::Memo`], [`crate::MemoExt`] and [`crate::MemoOnce`]
/// then defer the computation until first access and cache its result.
///
/// The computation must be a pure projection of the parameter, with no
/// hidden external state: `compute` has to return exactly
/// [`Memoize::spec_compute`] of its argument, so equal parameters always
/// yield equal results. There is no error channel; a computation that can
/// fail must encode the failure in the output type itself, for example as an
/// `Option` or `Result` value.
pub trait Memoize: Sized {
    /// The input the computation depends on. A computation with several
    /// inputs can use a tuple or a custom type; one with none can use `()`.
    type Param;

    /// The value of the computation, as a mathematical function of the
    /// parameter. This is what the caching cells' contracts are stated over.
    spec fn spec_compute(p: Self::Param) -> Self;

    /// Compute the value from the parameter.
    fn compute(p: &Self::Param) -> (r: Self)
        ensures
            r == Self::spec_compute(*p),
    ;
}

} // verus!
