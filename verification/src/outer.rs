//! The outer contexts' own operations, as the `higher` crate implements them for
//! `Option` and `Result`. Each function here hands its arguments to `higher`
//! and states, unproved, what `higher`'s source shows of the result.

use vstd::prelude::*;

verus! {

/// `higher::Functor::fmap` on an `Option`: `None` stays `None`, and `Some(a)`
/// becomes `Some` of what `f` returns for `a`. `f` is called on nothing else.
#[verifier::external_body]
pub(crate) fn option_fmap<A, B, F>(m: Option<A>, f: F) -> (r: Option<B>) where F: Fn(A) -> B
    requires
        m is Some ==> f.requires((m->0,)),
    ensures
        r is Some <==> m is Some,
        r is Some ==> f.ensures((m->0,), r->0),
{
    higher::Functor::fmap(m, f)
}

/// `higher::Pure::pure` for `Option`: the value inside `Some`.
#[verifier::external_body]
pub(crate) fn option_pure<A>(value: A) -> (r: Option<A>)
    ensures
        r == Some(value),
{
    higher::Pure::pure(value)
}

/// `higher::Bind::bind` on an `Option`: `None` stays `None`, and `Some(a)`
/// becomes what `f` returns for `a`. `f` is called on nothing else.
#[verifier::external_body]
pub(crate) fn option_bind<A, B, F>(m: Option<A>, f: F) -> (r: Option<B>) where
    F: Fn(A) -> Option<B>,

    requires
        m is Some ==> f.requires((m->0,)),
    ensures
        m is None ==> r is None,
        m is Some ==> f.ensures((m->0,), r),
{
    higher::Bind::bind(m, f)
}

/// `higher::Apply::apply` on an `Option`, the function handed over as
/// `higher`'s `ApplyFn`: the result is `Some` only where both the value and
/// the function are, and then holds what the function returns for the value.
#[verifier::external_body]
pub(crate) fn option_apply<A, B, F>(m: Option<A>, f: Option<F>) -> (r: Option<B>) where
    F: Fn(A) -> B,

    requires
        (m is Some && f is Some) ==> f->0.requires((m->0,)),
    ensures
        r is Some <==> (m is Some && f is Some),
        r is Some ==> f->0.ensures((m->0,), r->0),
{
    higher::Apply::apply(m, f.map(higher::apply::ApplyFn::from))
}

/// `higher::Functor::fmap` on a `Result`: an `Err` is handed on, and `Ok(a)`
/// becomes `Ok` of what `f` returns for `a`. `f` is called on nothing else.
#[verifier::external_body]
pub(crate) fn result_fmap<A, E, B, F>(m: Result<A, E>, f: F) -> (r: Result<B, E>) where
    F: Fn(A) -> B,

    requires
        m is Ok ==> f.requires((m->Ok_0,)),
    ensures
        r is Ok <==> m is Ok,
        r is Ok ==> f.ensures((m->Ok_0,), r->Ok_0),
        r is Err ==> r->Err_0 == m->Err_0,
{
    higher::Functor::fmap(m, f)
}

/// `higher::Pure::pure` for `Result`: the value inside `Ok`.
#[verifier::external_body]
pub(crate) fn result_pure<A, E>(value: A) -> (r: Result<A, E>)
    ensures
        r is Ok,
        r->Ok_0 == value,
{
    higher::Pure::pure(value)
}

/// `higher::Bind::bind` on a `Result`: an `Err` is handed on, and `Ok(a)`
/// becomes what `f` returns for `a`. `f` is called on nothing else.
#[verifier::external_body]
pub(crate) fn result_bind<A, E, B, F>(m: Result<A, E>, f: F) -> (r: Result<B, E>) where
    F: Fn(A) -> Result<B, E>,

    requires
        m is Ok ==> f.requires((m->Ok_0,)),
    ensures
        m is Err ==> r is Err,
        m is Err ==> r->Err_0 == m->Err_0,
        m is Ok ==> f.ensures((m->Ok_0,), r),
{
    higher::Bind::bind(m, f)
}

/// `higher::Apply::apply` on a `Result`, the function handed over as
/// `higher`'s `ApplyFn`: the value's `Err` comes first, then the function's,
/// and where both are `Ok` the result is `Ok` of what the function returns for
/// the value.
#[verifier::external_body]
pub(crate) fn result_apply<A, E, B, F>(m: Result<A, E>, f: Result<F, E>) -> (r: Result<B, E>) where
    F: Fn(A) -> B,

    requires
        (m is Ok && f is Ok) ==> f->Ok_0.requires((m->Ok_0,)),
    ensures
        r is Ok <==> (m is Ok && f is Ok),
        r is Ok ==> f->Ok_0.ensures((m->Ok_0,), r->Ok_0),
        m is Err ==> r->Err_0 == m->Err_0,
        (m is Ok && f is Err) ==> r->Err_0 == f->Err_0,
{
    higher::Apply::apply(m, f.map(higher::apply::ApplyFn::from))
}

} // verus!
