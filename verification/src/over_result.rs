//! The composed context over `Result`: `OptionT<Result<Option<A>, E>>`.
//!
//! `Err(e)` is the outer context's own failure, `Ok(None)` is absence, and
//! `Ok(Some(a))` holds `a`. A failure is never read here, only handed on.

use vstd::prelude::*;
use crate::inner::{applies_inner, bind_inner, lift_function, map_inner, maps_inner};
use crate::option::OptionT;
use crate::outer::{result_apply, result_bind, result_fmap, result_pure};

verus! {

impl<A, E> OptionT<Result<Option<A>, E>> {
    /// `value` lifted in: the outer context's simplest instance around it.
    pub open spec fn lifted(value: Option<A>) -> Self {
        OptionT { value: Ok(value) }
    }

    /// Whether `r` is what `fmap` may give on `self`, `step(a, b)` saying that
    /// the function may turn `a` into `b`. A failure is handed on, and an
    /// absent inner value stays absent.
    pub open spec fn maps_to<B>(
        self,
        step: spec_fn(A, B) -> bool,
        r: OptionT<Result<Option<B>, E>>,
    ) -> bool {
        match self.value {
            Ok(v) => r.value is Ok && maps_inner(v, step, r.value->Ok_0),
            Err(e) => r.value == Err::<Option<B>, E>(e),
        }
    }

    /// Whether `r` is what `bind` may give on `self`, `step(a, n)` saying that
    /// the continuation may answer `a` with `n`. A value held is continued
    /// with; absence stays absence, and a failure is handed on.
    pub open spec fn binds_to<B>(
        self,
        step: spec_fn(A, OptionT<Result<Option<B>, E>>) -> bool,
        r: OptionT<Result<Option<B>, E>>,
    ) -> bool {
        match self.value {
            Ok(Some(a)) => step(a, r),
            Ok(None) => r.value == Ok::<Option<B>, E>(None),
            Err(e) => r.value == Err::<Option<B>, E>(e),
        }
    }

    /// Whether `r` is what `apply` may give on `self` and the functions `fs`,
    /// `step(h, a, b)` saying that the function `h` may turn `a` into `b`.
    /// The value's failure comes before the functions'; where neither failed,
    /// a result is there only where both the function and the value are.
    pub open spec fn applies_to<F, B>(
        self,
        fs: OptionT<Result<Option<F>, E>>,
        step: spec_fn(F, A, B) -> bool,
        r: OptionT<Result<Option<B>, E>>,
    ) -> bool {
        match (self.value, fs.value) {
            (Ok(v), Ok(of)) => r.value is Ok && applies_inner(of, v, step, r.value->Ok_0),
            (Ok(_), Err(e)) => r.value == Err::<Option<B>, E>(e),
            (Err(e), _) => r.value == Err::<Option<B>, E>(e),
        }
    }

    /// Transforms the value held with `f`; absence stays, and a failure is
    /// handed on. Where no value is held, nothing is asked of `f`.
    pub fn fmap<B, F>(self, f: F) -> (r: OptionT<Result<Option<B>, E>>) where F: Fn(A) -> B
        requires
            forall|a: A| self.value == Ok::<Option<A>, E>(Some(a)) ==> f.requires((a,)),
        ensures
            self.maps_to(|a: A, b: B| f.ensures((a,), b), r),
    {
        let g = &f;
        let inner = |v: Option<A>| -> (w: Option<B>)
            requires
                v is Some ==> g.requires((v->0,)),
            ensures
                maps_inner(v, |a: A, b: B| g.ensures((a,), b), w),
            { map_inner(v, g) };
        OptionT { value: result_fmap(self.value, inner) }
    }

    /// Lifts a plain optional value in, through the outer context's own lift.
    pub fn pure(value: Option<A>) -> (r: Self)
        ensures
            r == Self::lifted(value),
            r.value == Ok::<Option<A>, E>(value),
    {
        OptionT { value: result_pure(value) }
    }

    /// Applies the function that `f` holds to the value held.
    /// Where either is missing, no function is called.
    pub fn apply<B, F>(self, f: OptionT<Result<Option<F>, E>>) -> (r: OptionT<
        Result<Option<B>, E>,
    >) where F: Fn(A) -> B
        requires
            forall|a: A, h: F|
                self.value == Ok::<Option<A>, E>(Some(a)) && f.value == Ok::<Option<F>, E>(Some(h))
                    ==> h.requires((a,)),
        ensures
            self.applies_to(f, |h: F, a: A, b: B| h.ensures((a,), b), r),
    {
        let lifted = result_fmap(f.value, lift_function);
        OptionT { value: result_apply(self.value, lifted) }
    }

    /// Sequences the value held into `f`. On absence `f` is not called, nothing
    /// is asked of it, and the result is absence lifted into the outer context.
    pub fn bind<B, F>(self, f: F) -> (r: OptionT<Result<Option<B>, E>>) where
        F: Fn(A) -> OptionT<Result<Option<B>, E>>,

        requires
            forall|a: A| self.value == Ok::<Option<A>, E>(Some(a)) ==> f.requires((a,)),
        ensures
            self.binds_to(|a: A, n: OptionT<Result<Option<B>, E>>| f.ensures((a,), n), r),
    {
        let g = &f;
        let step = |v: Option<A>| -> (n: Result<Option<B>, E>)
            requires
                v is Some ==> g.requires((v->0,)),
            ensures
                v is Some ==> g.ensures((v->0,), (OptionT { value: n })),
                v is None ==> n == Ok::<Option<B>, E>(None),
            {
                let absent = || -> (n: Result<Option<B>, E>)
                    ensures
                        n == Ok::<Option<B>, E>(None),
                    { result_pure(None) };
                bind_inner(v, g, absent)
            };
        OptionT { value: result_bind(self.value, step) }
    }
}

} // verus!
