//! Small functions over integers and integer sequences.

use rayon::iter::{IntoParallelRefIterator, ParallelIterator};
use vstd::prelude::*;
use vstd::slice::slice_to_vec;

verus! {

/// The odd elements of `s`, in order.
pub open spec fn odds(s: Seq<i32>) -> Seq<i32> {
    s.filter(|x: i32| x % 2 != 0)
}

/// `Some(2 * x)` for positive `x`, `None` for the rest.
pub open spec fn doubled_if_positive(x: i32) -> Option<i32> {
    if x > 0 {
        Some((2 * x) as i32)
    } else {
        None
    }
}

/// The positive elements of `s`, in order, each doubled.
pub open spec fn doubled_positives(s: Seq<i32>) -> Seq<i32> {
    s.filter_map(|x: i32| doubled_if_positive(x))
}

/// Every positive element of `s` can be doubled within `i32`.
pub open spec fn positives_double_in_range(s: Seq<i32>) -> bool {
    forall|i: int| 0 <= i < s.len() && s[i] > 0 ==> 2 * s[i] <= i32::MAX
}

/// `a + b`.
pub fn sum(a: i32, b: i32) -> (r: i32)
    requires
        i32::MIN <= a + b <= i32::MAX,
    ensures
        r == a + b,
{
    a + b
}

/// The odd numbers of `numbers`, in order, collected element by element.
pub fn get_odds_loop(numbers: &[i32]) -> (r: Vec<i32>)
    ensures
        r@ == odds(numbers@),
{
    let mut result: Vec<i32> = Vec::new();
    let mut i: usize = 0;
    while i < numbers.len()
        invariant
            i <= numbers@.len(),
            result@ == odds(numbers@.take(i as int)),
        decreases numbers@.len() - i,
    {
        let number = numbers[i];
        proof {
            numbers@.take(i as int).lemma_filter_push(number, |x: i32| x % 2 != 0);
            assert(numbers@.take(i as int).push(number) =~= numbers@.take(i + 1));
        }
        if number % 2 != 0 {
            result.push(number);
        }
        i = i + 1;
    }
    assert(numbers@.take(numbers@.len() as int) =~= numbers@);
    result
}

/// Removes the even numbers of `numbers`, keeping the order of the rest.
pub fn filter_odds_in_place(numbers: &mut Vec<i32>)
    ensures
        final(numbers)@ == odds(old(numbers)@),
{
    let kept = get_odds_loop(numbers.as_slice());
    *numbers = kept;
}

/// The odd numbers of `numbers`, in order.
pub fn get_odds(numbers: &[i32]) -> (r: Vec<i32>)
    ensures
        r@ == odds(numbers@),
{
    let mut copy = slice_to_vec(numbers);
    filter_odds_in_place(&mut copy);
    copy
}

/// Both coordinates moved by `acceleration`.
pub fn move_position(x: i32, y: i32, acceleration: i32) -> (r: (i32, i32))
    requires
        i32::MIN <= x + acceleration <= i32::MAX,
        i32::MIN <= y + acceleration <= i32::MAX,
    ensures
        r.0 == x + acceleration,
        r.1 == y + acceleration,
{
    (x + acceleration, y + acceleration)
}

/// `Some(2 * x)` for positive `x`, `None` for the rest.
pub fn double_if_positive(x: i32) -> (r: Option<i32>)
    requires
        x > 0 ==> 2 * x <= i32::MAX,
    ensures
        r == doubled_if_positive(x),
{
    if x > 0 {
        Some(2 * x)
    } else {
        None
    }
}

/// Relies on rayon's `par_iter().filter_map(..).collect::<Vec<_>>()`, which keeps the
/// order of the input; each element goes through `double_if_positive`.
#[verifier::external_body]
fn par_doubled_positives(numbers: &Vec<i32>) -> (r: Vec<i32>)
    requires
        positives_double_in_range(numbers@),
    ensures
        r@ == doubled_positives(numbers@),
{
    numbers.par_iter().filter_map(|&x| double_if_positive(x)).collect()
}

/// The positive numbers of `numbers`, in order, each doubled, computed on rayon's
/// thread pool.
pub fn rayon_positive_numbers(numbers: Vec<i32>) -> (r: Vec<i32>)
    requires
        positives_double_in_range(numbers@),
    ensures
        r@ == doubled_positives(numbers@),
{
    par_doubled_positives(&numbers)
}

/// The positive numbers of `numbers`, in order, each doubled.
pub fn process_positive_numbers(numbers: Vec<i32>) -> (r: Vec<i32>)
    requires
        positives_double_in_range(numbers@),
    ensures
        r@ == doubled_positives(numbers@),
{
    let mut result: Vec<i32> = Vec::new();
    let mut i: usize = 0;
    while i < numbers.len()
        invariant
            i <= numbers@.len(),
            positives_double_in_range(numbers@),
            result@ == doubled_positives(numbers@.take(i as int)),
        decreases numbers@.len() - i,
    {
        let number = numbers[i];
        assert(numbers@.take(i + 1).drop_last() =~= numbers@.take(i as int));
        if let Some(doubled) = double_if_positive(number) {
            result.push(doubled);
        }
        i = i + 1;
    }
    assert(numbers@.take(numbers@.len() as int) =~= numbers@);
    result
}

/// `s` without repeats: each value once, where it first occurs.
pub open spec fn first_occurrences(s: Seq<i32>) -> Seq<i32>
    decreases s.len(),
{
    if s.len() == 0 {
        s
    } else {
        let rest = first_occurrences(s.drop_last());
        if rest.contains(s.last()) {
            rest
        } else {
            rest.push(s.last())
        }
    }
}

fn holds(values: &Vec<i32>, x: i32) -> (r: bool)
    ensures
        r == values@.contains(x),
{
    let mut i: usize = 0;
    while i < values.len()
        invariant
            i <= values@.len(),
            forall|j: int| 0 <= j < i ==> values@[j] != x,
        decreases values@.len() - i,
    {
        if values[i] == x {
            return true;
        }
        i = i + 1;
    }
    false
}

/// The drawn numbers without repeats, in the order of their first draw.
pub fn distinct_draws(draws: &[i32]) -> (r: Vec<i32>)
    ensures
        r@ == first_occurrences(draws@),
{
    let mut numbers: Vec<i32> = Vec::new();
    let mut i: usize = 0;
    while i < draws.len()
        invariant
            i <= draws@.len(),
            numbers@ == first_occurrences(draws@.take(i as int)),
        decreases draws@.len() - i,
    {
        let draw = draws[i];
        assert(draws@.take(i + 1).drop_last() =~= draws@.take(i as int));
        if !holds(&numbers, draw) {
            numbers.push(draw);
        }
        i = i + 1;
    }
    assert(draws@.take(draws@.len() as int) =~= draws@);
    numbers
}

} // verus!
