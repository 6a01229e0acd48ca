//! The inner layer: what each operation does to the `Option` that the outer
//! context holds. Nothing here knows which outer context it is.

use vstd::prelude::*;
use crate::option::OptionT;

verus! {

/// Whether `w` is what transforming `v` may give, `step(a, b)` saying that the
/// function may turn `a` into `b`: absence stays, a value is turned.
pub open spec fn maps_inner<A, B>(v: Option<A>, step: spec_fn(A, B) -> bool, w: Option<B>) -> bool {
    match v {
        Some(a) => w is Some && step(a, w->0),
        None => w is None,
    }
}

/// Whether `w` is what applying `of` to `v` may give, `step(h, a, b)` saying
/// that the function `h` may turn `a` into `b`: a result is there only where
/// both the function and the value are.
pub open spec fn applies_inner<F, A, B>(
    of: Option<F>,
    v: Option<A>,
    step: spec_fn(F, A, B) -> bool,
    w: Option<B>,
) -> bool {
    match (of, v) {
        (Some(h), Some(a)) => w is Some && step(h, a, w->0),
        _ => w is None,
    }
}

/// Transforms the value that `v` holds, if any, with `f`.
/// On `None`, `f` is not needed and nothing is asked of it.
pub fn map_inner<A, B, F>(v: Option<A>, f: &F) -> (w: Option<B>) where F: Fn(A) -> B
    requires
        v is Some ==> f.requires((v->0,)),
    ensures
        maps_inner(v, |a: A, b: B| f.ensures((a,), b), w),
{
    match v {
        None => None,
        Some(a) => Some(f(a)),
    }
}

/// One step of sequencing: on a value, the outer value that `f` continues
/// with; on `None`, the outer value that `absent` supplies, and `f` is neither
/// needed nor asked anything.
pub fn bind_inner<A, N, F, P>(v: Option<A>, f: &F, absent: P) -> (n: N) where
    F: Fn(A) -> OptionT<N>,
    P: FnOnce() -> N,

    requires
        v is Some ==> f.requires((v->0,)),
        v is None ==> absent.requires(()),
    ensures
        v is Some ==> f.ensures((v->0,), (OptionT { value: n })),
        v is None ==> absent.ensures((), n),
{
    match v {
        Some(a) => f(a).value,
        None => absent(),
    }
}

/// Applies the function that `of` holds to the value that `v` holds, where
/// both are there. Otherwise the result is `None` and no function is called.
pub fn apply_inner<A, B, F>(of: &Option<F>, v: Option<A>) -> (w: Option<B>) where F: Fn(A) -> B
    requires
        (of is Some && v is Some) ==> of->0.requires((v->0,)),
    ensures
        applies_inner(*of, v, |h: F, a: A, b: B| h.ensures((a,), b), w),
{
    match (of, v) {
        (Some(h), Some(a)) => Some(h(a)),
        _ => None,
    }
}

/// `apply_inner` with its function fixed to `of`, as a function on the inner
/// layer that an outer context can apply.
pub fn lift_function<A, B, F>(of: Option<F>) -> (g: impl Fn(Option<A>) -> Option<B>) where
    F: Fn(A) -> B,

    ensures
        forall|v: Option<A>|
            ((of is Some && v is Some) ==> of->0.requires((v->0,))) ==> #[trigger] g.requires((v,)),
        forall|v: Option<A>, w: Option<B>| #[trigger]
            g.ensures((v,), w) ==> applies_inner(of, v, |h: F, a: A, b: B| h.ensures((a,), b), w),
{
    move |v: Option<A>| -> (w: Option<B>)
        requires
            (of is Some && v is Some) ==> of->0.requires((v->0,)),
        ensures
            applies_inner(of, v, |h: F, a: A, b: B| h.ensures((a,), b), w),
        { apply_inner(&of, v) }
}

} // verus!
