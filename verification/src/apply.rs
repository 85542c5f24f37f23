//! Calling a function through its value.
//!
//! After such a call the verifier knows of the result that it is one that the
//! function has for the arguments, `call_ensures`, and a contract can say so.
//! That is how the contracts of this crate speak of what a call into another
//! crate gave, where nothing else can be said of it.
use vstd::prelude::*;

verus! {

/// Calls `function` on `argument`.
pub(crate) fn apply<A, B, F: FnOnce(A) -> B>(function: F, argument: A) -> (result: B)
    requires
        call_requires(function, (argument,)),
    ensures
        call_ensures(function, (argument,), result),
{
    function(argument)
}

/// Calls `function` on `first` and `second`.
pub(crate) fn apply_two<A, B, C, F: FnOnce(A, B) -> C>(function: F, first: A, second: B) -> (result:
    C)
    requires
        call_requires(function, (first, second)),
    ensures
        call_ensures(function, (first, second), result),
{
    function(first, second)
}

} // verus!
