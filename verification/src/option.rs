//! The composed context itself: one field, the outer context's value.

use vstd::prelude::*;
use vstd::std_specs::convert::FromSpecImpl;

verus! {

/// An outer context's value `M` whose payload is an `Option`.
///
/// The wrapper adds nothing to `value` and checks nothing in it: absence is the
/// inner `None`, and whatever else `M` can say (an error, say) stays `M`'s own.
#[derive(Debug, PartialEq, Eq)]
pub struct OptionT<M> {
    pub value: M,
}

impl<M> FromSpecImpl<M> for OptionT<M> {
    open spec fn obeys_from_spec() -> bool {
        true
    }

    open spec fn from_spec(v: M) -> Self {
        OptionT { value: v }
    }
}

impl<M> From<M> for OptionT<M> {
    /// Wraps `v` as it is.
    fn from(v: M) -> (r: Self) {
        Self { value: v }
    }
}

} // verus!
