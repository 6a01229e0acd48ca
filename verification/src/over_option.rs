//! The composed context over `Option`: `OptionT<Option<Option<A>>>`.
//!
//! `None` is the outer context's own emptiness, `Some(None)` is absence, and
//! `Some(Some(a))` holds `a`.

use vstd::prelude::*;
use crate::inner::{applies_inner, bind_inner, lift_function, map_inner, maps_inner};
use crate::option::OptionT;
use crate::outer::{option_apply, option_bind, option_fmap, option_pure};

verus! {

impl<A> OptionT<Option<Option<A>>> {
    /// `value` lifted in: the outer context's simplest instance around it.
    pub open spec fn lifted(value: Option<A>) -> Self {
        OptionT { value: Some(value) }
    }

    /// Whether `r` is what `fmap` may give on `self`, `step(a, b)` saying that
    /// the function may turn `a` into `b`. The outer layer keeps its shape, and
    /// so does an absent inner value.
    pub open spec fn maps_to<B>(
        self,
        step: spec_fn(A, B) -> bool,
        r: OptionT<Option<Option<B>>>,
    ) -> bool {
        match self.value {
            Some(v) => r.value is Some && maps_inner(v, step, r.value->0),
            None => r.value is None,
        }
    }

    /// Whether `r` is what `bind` may give on `self`, `step(a, n)` saying that
    /// the continuation may answer `a` with `n`. A value held is continued
    /// with; absence and the outer layer's emptiness stay what they are.
    pub open spec fn binds_to<B>(
        self,
        step: spec_fn(A, OptionT<Option<Option<B>>>) -> bool,
        r: OptionT<Option<Option<B>>>,
    ) -> bool {
        match self.value {
            Some(Some(a)) => step(a, r),
            Some(None) => r.value == Some(None::<B>),
            None => r.value is None,
        }
    }

    /// Whether `r` is what `apply` may give on `self` and the functions `fs`,
    /// `step(h, a, b)` saying that the function `h` may turn `a` into `b`.
    /// The outer layer is there only where it is on both sides, and within it
    /// a result only where both the function and the value are.
    pub open spec fn applies_to<F, B>(
        self,
        fs: OptionT<Option<Option<F>>>,
        step: spec_fn(F, A, B) -> bool,
        r: OptionT<Option<Option<B>>>,
    ) -> bool {
        match (self.value, fs.value) {
            (Some(v), Some(of)) => r.value is Some && applies_inner(of, v, step, r.value->0),
            _ => r.value is None,
        }
    }

    /// Transforms the value held with `f`; absence stays, and so does the
    /// outer layer. Where no value is held, nothing is asked of `f`.
    pub fn fmap<B, F>(self, f: F) -> (r: OptionT<Option<Option<B>>>) where F: Fn(A) -> B
        requires
            forall|a: A| self.value == Some(Some(a)) ==> f.requires((a,)),
        ensures
            self.maps_to(|a: A, b: B| f.ensures((a,), b), r),
    {
        let g = &f;
        let inner = |v: Option<A>| -> (w: Option<B>)
            requires
                v is Some ==> g.requires((v->0,)),
            ensures
                maps_inner(v, |a: A, b: B| g.ensures((a,), b), w),
            { map_inner(v, g) };
        OptionT { value: option_fmap(self.value, inner) }
    }

    /// Lifts a plain optional value in, through the outer context's own lift.
    pub fn pure(value: Option<A>) -> (r: Self)
        ensures
            r == Self::lifted(value),
            r.value == Some(value),
    {
        OptionT { value: option_pure(value) }
    }

    /// Applies the function that `f` holds to the value held.
    /// Where either is missing, no function is called.
    pub fn apply<B, F>(self, f: OptionT<Option<Option<F>>>) -> (r: OptionT<Option<Option<B>>>) where
        F: Fn(A) -> B,

        requires
            forall|a: A, h: F|
                self.value == Some(Some(a)) && f.value == Some(Some(h)) ==> h.requires((a,)),
        ensures
            self.applies_to(f, |h: F, a: A, b: B| h.ensures((a,), b), r),
    {
        let lifted = option_fmap(f.value, lift_function);
        OptionT { value: option_apply(self.value, lifted) }
    }

    /// Sequences the value held into `f`. On absence `f` is not called, nothing
    /// is asked of it, and the result is absence lifted into the outer context.
    pub fn bind<B, F>(self, f: F) -> (r: OptionT<Option<Option<B>>>) where
        F: Fn(A) -> OptionT<Option<Option<B>>>,

        requires
            forall|a: A| self.value == Some(Some(a)) ==> f.requires((a,)),
        ensures
            self.binds_to(|a: A, n: OptionT<Option<Option<B>>>| f.ensures((a,), n), r),
    {
        let g = &f;
        let step = |v: Option<A>| -> (n: Option<Option<B>>)
            requires
                v is Some ==> g.requires((v->0,)),
            ensures
                v is Some ==> g.ensures((v->0,), (OptionT { value: n })),
                v is None ==> n == Some(None::<B>),
            {
                let absent = || -> (n: Option<Option<B>>)
                    ensures
                        n == Some(None::<B>),
                    { option_pure(None) };
                bind_inner(v, g, absent)
            };
        OptionT { value: option_bind(self.value, step) }
    }
}

} // verus!
