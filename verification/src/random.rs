//! Random draws, and the random layouts that are built from them.
//!
//! The draws themselves come from the `rand` crate and are trusted; what is
//! built from them is proved for every value that a draw can have.

use vstd::prelude::*;
use rand::Rng;
use rand::seq::IteratorRandom;

verus! {

/// Draws a number from `low` up to, but not including, `high`.
///
/// Trusted: calls `rand::Rng::gen_range` on the thread's generator with the
/// half-open range `low..high`. Nothing is claimed of the draw but that it
/// lies in that range; an empty range, on which the call panics, is left
/// out.
#[verifier::external_body]
pub(crate) fn random_below(low: u32, high: u32) -> (r: u32)
    requires
        low < high,
    ensures
        low <= r < high,
{
    rand::thread_rng().gen_range(low..high)
}

/// Draws one of `true` and `false`.
///
/// Trusted: calls `rand::Rng::gen` for a `bool` on the thread's generator.
/// Nothing is claimed of the result.
#[verifier::external_body]
pub(crate) fn random_bool() -> (r: bool)
{
    rand::thread_rng().gen()
}

/// Draws `amount` different numbers below `count`.
///
/// Trusted: calls `rand::seq::IteratorRandom::choose_multiple` on the range
/// `0..count` with the thread's generator. The call fills a vector with the
/// first `amount` items of the range and then replaces some of them by later
/// items, so it returns `amount` items of the range, none of them twice, in
/// no stated order. More items than the range holds are not asked for.
#[verifier::external_body]
pub(crate) fn choose_indices(count: u8, amount: usize) -> (r: Vec<u8>)
    requires
        amount <= count,
    ensures
        r@.len() == amount,
        forall|i: int| 0 <= i < r@.len() ==> r@[i] < count,
        forall|i: int, j: int| 0 <= i < j < r@.len() ==> r@[i] != r@[j],
{
    (0..count).choose_multiple(&mut rand::thread_rng(), amount)
}

/// The sum of the numbers in `s`.
pub open spec fn total_of(s: Seq<u32>) -> int
    decreases s.len(),
{
    if s.len() == 0 { 0 } else { total_of(s.drop_last()) + s.last() }
}

/// Draws `num` numbers, each at least `min`, that add up to `total`.
///
/// There must be at least one number to draw, and `total` must be more than
/// `num` times `min`.
pub fn random_u32_subdivisions(num: u32, total: u32, min: u32) -> (vals: Vec<u32>)
    requires
        num > 0,
        total > num * min,
    ensures
        vals@.len() == num,
        total_of(vals@) == total,
        forall|i: int| 0 <= i < vals@.len() ==> vals@[i] >= min,
{
    let mut vals: Vec<u32> = Vec::new();
    let mut sum: u32 = 0;
    let mut i: u32 = 0;
    while i < num - 1
        invariant
            num > 0,
            i <= num - 1,
            vals@.len() == i,
            total_of(vals@) == sum,
            total - sum > (num - i) * min,
            forall|k: int| 0 <= k < vals@.len() ==> vals@[k] >= min,
        decreases num - i,
    {
        assert((num - i) * min == min * (num - i - 1) + min && min * (num - i - 1) >= 0)
            by (nonlinear_arith)
            requires
                i < num,
                min >= 0,
        ;
        let reserve: u32 = min * (num - i - 1);
        let max: u32 = total - sum - reserve;
        let val: u32 = random_below(min, max);
        proof {
            assert(vals@.push(val).drop_last() =~= vals@);
        }
        vals.push(val);
        sum = sum + val;
        i = i + 1;
    }
    assert((num - i) * min == min) by (nonlinear_arith)
        requires
            i == num - 1,
    ;
    let last: u32 = total - sum;
    proof {
        assert(vals@.push(last).drop_last() =~= vals@);
    }
    vals.push(last);
    vals
}

/// Draws `num` numbers in rising order from 0 up to, but not including,
/// `max`, each at least `min_gap` above the one before it. The number at
/// index `i` leaves room for the ones after it: it is below
/// `max - (num - 1 - i) * min_gap`.
///
/// `max` must be more than `num` times `min_gap`.
pub fn random_circular_distribution(num: u32, min_gap: u32, max: u32) -> (vals: Vec<u32>)
    requires
        num * min_gap < max,
    ensures
        vals@.len() == num,
        forall|i: int| 0 <= i < vals@.len() ==> vals@[i] + (num - 1 - i) * min_gap < max,
        forall|i: int| 0 <= i < vals@.len() - 1 ==> vals@[i + 1] >= #[trigger] vals@[i] + min_gap,
{
    let mut vals: Vec<u32> = Vec::new();
    let mut last: u32 = 0;
    let mut i: u32 = 0;
    while i < num
        invariant
            i <= num,
            num * min_gap < max,
            vals@.len() == i,
            i > 0 ==> last == vals@[i - 1],
            i == 0 ==> last == 0,
            forall|k: int| 0 <= k < vals@.len() ==> vals@[k] + (num - 1 - k) * min_gap < max,
            forall|k: int| 0 <= k < vals@.len() - 1 ==> vals@[k + 1] >= #[trigger] vals@[k] + min_gap,
        decreases num - i,
    {
        assert((num - i) * min_gap == (num - i - 1) * min_gap + min_gap && (num - i - 1) * min_gap
            >= 0 && (num - i) * min_gap <= num * min_gap) by (nonlinear_arith)
            requires
                i < num,
                min_gap >= 0,
        ;
        assert(i > 0 ==> (num - 1 - (i - 1)) * min_gap == (num - i) * min_gap);
        let start: u32 = if i == 0 { last } else { last + min_gap };
        let gap_allowance: u32 = (num - i - 1) * min_gap;
        let end: u32 = max - gap_allowance;
        last = random_below(start, end);
        vals.push(last);
        i = i + 1;
    }
    vals
}

} // verus!
