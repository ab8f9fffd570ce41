//! Generic pairs and comparisons.

use vstd::prelude::*;

verus! {

/// A point with two coordinates of one type.
#[derive(Debug, Clone, Copy)]
pub struct Point<T> {
    pub x: T,
    pub y: T,
}

impl<T> Point<T> {
    pub fn new(x: T, y: T) -> (r: Point<T>)
        ensures
            r.x == x,
            r.y == y,
    {
        Point { x, y }
    }
}

/// The two values, exchanged.
pub fn swap_values<T>(a: T, b: T) -> (r: (T, T))
    ensures
        r.0 == b,
        r.1 == a,
{
    (b, a)
}

/// The larger of `a` and `b`.
pub fn max(a: i32, b: i32) -> (r: i32)
    ensures
        r == if a >= b {
            a
        } else {
            b
        },
{
    if a >= b {
        a
    } else {
        b
    }
}

/// The first largest element of a non-empty slice.
pub fn find_largest(slice: &[i32]) -> (r: &i32)
    requires
        slice@.len() > 0,
    ensures
        exists|k: int|
            0 <= k < slice@.len() && slice@[k] == *r && forall|j: int|
                0 <= j < k ==> #[trigger] slice@[j] < *r,
        forall|j: int| 0 <= j < slice@.len() ==> #[trigger] slice@[j] <= *r,
{
    let mut largest = &slice[0];
    let ghost mut at: int = 0;
    let mut i: usize = 0;
    while i < slice.len()
        invariant
            i <= slice@.len(),
            0 <= at < slice@.len(),
            at <= i || (i == 0 && at == 0),
            slice@[at] == *largest,
            forall|j: int| 0 <= j < at ==> #[trigger] slice@[j] < *largest,
            forall|j: int| 0 <= j < i ==> #[trigger] slice@[j] <= *largest,
        decreases slice@.len() - i,
    {
        let item = &slice[i];
        if *item > *largest {
            largest = item;
            proof {
                at = i as int;
            }
        }
        i = i + 1;
    }
    largest
}

} // verus!
