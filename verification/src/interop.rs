//! Functions that a C driver calls in the interoperability sample library.
use vstd::prelude::*;

verus! {

/// Adds two `ULONG`s; the sum must fit in a `ULONG`.
pub fn rust_add_function(arg1: u32, arg2: u32) -> (sum: u32)
    requires
        arg1 + arg2 <= u32::MAX,
    ensures
        sum == arg1 + arg2,
{
    arg1 + arg2
}

} // verus!
