//! The functor, applicative and monad laws of the composed context over
//! `Result`, stated over the relations that the operations ensure.

use vstd::prelude::*;
use crate::option::OptionT;

verus! {

impl<A, E> OptionT<Result<Option<A>, E>> {
    /// Functor identity: transforming with the function that returns its
    /// argument gives the value itself, and nothing else.
    pub proof fn law_fmap_identity(self, r: Self)
        ensures
            self.maps_to(|a: A, b: A| b == a, r) <==> r == self,
    {
    }

    /// Functor composition: transforming with one function and then with
    /// another gives what transforming once with their composite gives.
    pub proof fn law_fmap_composition<B, C>(
        self,
        first: spec_fn(A, B) -> bool,
        second: spec_fn(B, C) -> bool,
        r: OptionT<Result<Option<C>, E>>,
    )
        ensures
            self.maps_to(|a: A, c: C| exists|b: B| #[trigger] first(a, b) && second(b, c), r)
                <==> exists|m: OptionT<Result<Option<B>, E>>| #[trigger]
                self.maps_to(first, m) && m.maps_to(second, r),
    {
        let composite = |a: A, c: C| exists|b: B| #[trigger] first(a, b) && second(b, c);
        if self.maps_to(composite, r) {
            let m: OptionT<Result<Option<B>, E>> = match self.value {
                Ok(Some(a)) => {
                    let b = choose|b: B| #[trigger] first(a, b) && second(b, r.value->Ok_0->0);
                    OptionT { value: Ok(Some(b)) }
                },
                Ok(None) => OptionT { value: Ok(None) },
                Err(e) => OptionT { value: Err(e) },
            };
            assert(self.maps_to(first, m) && m.maps_to(second, r));
        }
    }

    /// Absence under transform: whatever the function, an absent value stays
    /// absent inside the same successful outer layer.
    pub proof fn law_fmap_absent<B>(
        self,
        step: spec_fn(A, B) -> bool,
        r: OptionT<Result<Option<B>, E>>,
    )
        requires
            self.value == Ok::<Option<A>, E>(None),
            self.maps_to(step, r),
        ensures
            r.value == Ok::<Option<B>, E>(None),
    {
    }

    /// Left identity: sequencing a value just lifted in gives what the
    /// continuation gives for that value, and nothing else.
    pub proof fn law_bind_left_identity<B>(
        a: A,
        step: spec_fn(A, OptionT<Result<Option<B>, E>>) -> bool,
        r: OptionT<Result<Option<B>, E>>,
    )
        ensures
            Self::lifted(Some(a)).binds_to(step, r) <==> step(a, r),
    {
    }

    /// Right identity: sequencing into the continuation that lifts its
    /// argument back in gives the value itself, and nothing else.
    pub proof fn law_bind_right_identity(self, r: Self)
        ensures
            self.binds_to(|a: A, n: Self| n == Self::lifted(Some(a)), r) <==> r == self,
    {
    }

    /// Associativity: sequencing into one continuation and then into another
    /// gives what sequencing once into their chain gives.
    pub proof fn law_bind_associativity<B, C>(
        self,
        first: spec_fn(A, OptionT<Result<Option<B>, E>>) -> bool,
        second: spec_fn(B, OptionT<Result<Option<C>, E>>) -> bool,
        r: OptionT<Result<Option<C>, E>>,
    )
        ensures
            self.binds_to(
                |a: A, n: OptionT<Result<Option<C>, E>>|
                    exists|m: OptionT<Result<Option<B>, E>>| #[trigger]
                        first(a, m) && m.binds_to(second, n),
                r,
            ) <==> exists|m: OptionT<Result<Option<B>, E>>| #[trigger]
                self.binds_to(first, m) && m.binds_to(second, r),
    {
        let chain = |a: A, n: OptionT<Result<Option<C>, E>>|
            exists|m: OptionT<Result<Option<B>, E>>| #[trigger]
                first(a, m) && m.binds_to(second, n);
        if self.binds_to(chain, r) {
            let m: OptionT<Result<Option<B>, E>> = match self.value {
                Ok(Some(a)) => choose|m: OptionT<Result<Option<B>, E>>| #[trigger]
                    first(a, m) && m.binds_to(second, r),
                Ok(None) => OptionT { value: Ok(None) },
                Err(e) => OptionT { value: Err(e) },
            };
            assert(self.binds_to(first, m) && m.binds_to(second, r));
        }
    }

    /// Absence under sequencing: whatever the continuation, an absent value
    /// gives absence inside the same successful outer layer, and a failure
    /// stays the failure it was.
    pub proof fn law_bind_absent<B>(
        self,
        step: spec_fn(A, OptionT<Result<Option<B>, E>>) -> bool,
        r: OptionT<Result<Option<B>, E>>,
    )
        requires
            self.binds_to(step, r),
        ensures
            self.value == Ok::<Option<A>, E>(None) ==> r.value == Ok::<Option<B>, E>(None),
            self.value is Err ==> r.value == Err::<Option<B>, E>(self.value->Err_0),
    {
    }

    /// Applicative identity: applying the lifted function that returns its
    /// argument gives the value itself, and nothing else.
    pub proof fn law_apply_identity<F>(self, h: F, r: Self)
        ensures
            self.applies_to(
                OptionT::<Result<Option<F>, E>>::lifted(Some(h)),
                |g: F, a: A, b: A| b == a,
                r,
            ) <==> r == self,
    {
    }

    /// Homomorphism: applying a lifted function to a lifted value gives the
    /// function's result, lifted.
    pub proof fn law_apply_homomorphism<F, B>(
        a: A,
        h: F,
        step: spec_fn(F, A, B) -> bool,
        r: OptionT<Result<Option<B>, E>>,
    )
        ensures
            Self::lifted(Some(a)).applies_to(
                OptionT::<Result<Option<F>, E>>::lifted(Some(h)),
                step,
                r,
            ) <==> exists|b: B| #[trigger]
                step(h, a, b) && r == OptionT::<Result<Option<B>, E>>::lifted(Some(b)),
    {
        let x = Self::lifted(Some(a));
        let fs = OptionT::<Result<Option<F>, E>>::lifted(Some(h));
        if x.applies_to(fs, step, r) {
            assert(step(h, a, r.value->Ok_0->0));
        }
    }

    /// Interchange: applying functions to a lifted value is applying, to the
    /// functions, the lifted function that hands each of them that value.
    pub proof fn law_apply_interchange<F, G, B>(
        a: A,
        fs: OptionT<Result<Option<F>, E>>,
        at: G,
        step: spec_fn(F, A, B) -> bool,
        r: OptionT<Result<Option<B>, E>>,
    )
        ensures
            Self::lifted(Some(a)).applies_to(fs, step, r) <==> fs.applies_to(
                OptionT::<Result<Option<G>, E>>::lifted(Some(at)),
                |g: G, h: F, b: B| step(h, a, b),
                r,
            ),
    {
    }

    /// Transforming is sequencing into the continuation that lifts the
    /// function's result back in.
    pub proof fn law_fmap_by_bind<B>(
        self,
        step: spec_fn(A, B) -> bool,
        r: OptionT<Result<Option<B>, E>>,
    )
        ensures
            self.maps_to(step, r) <==> self.binds_to(
                |a: A, n: OptionT<Result<Option<B>, E>>|
                    exists|b: B| #[trigger]
                        step(a, b) && n == OptionT::<Result<Option<B>, E>>::lifted(Some(b)),
                r,
            ),
    {
    }
}

} // verus!
