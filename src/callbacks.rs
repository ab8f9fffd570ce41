//! Functions that take or return closures.

use vstd::prelude::*;

verus! {

/// Calls `f` with 42.
pub fn call_with_closure<F: Fn(i32)>(f: F)
    requires
        f.requires((42i32,)),
{
    f(42)
}

/// Calls `callback` with 100.
pub fn call_with_callback<F: Fn(i32)>(callback: F)
    requires
        callback.requires((100i32,)),
{
    callback(100)
}

/// A closure that multiplies its argument by `x`.
pub fn make_multiplier(x: i32) -> (r: impl Fn(i32) -> i32)
    ensures
        forall|y: i32| x * y >= i32::MIN && x * y <= i32::MAX ==> #[trigger] r.requires((y,)),
        forall|y: i32, z: i32| r.ensures((y,), z) ==> z == x * y,
{
    move |y: i32| -> (z: i32)
        requires
            i32::MIN <= x * y <= i32::MAX,
        ensures
            z == x * y,
        { x * y }
}

} // verus!
