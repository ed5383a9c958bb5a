//! A point index that is rebuilt from scratch on every tick and answers
//! nearest-neighbour queries.

use vstd::prelude::*;
use crate::geometry::{dist_sq, distance_squared, Vec2};

verus! {

/// The positions of the indexed entities, in the order in which they were
/// entered. The index is derived state: what it holds is as old as its
/// last rebuild.
#[derive(Clone, Debug)]
pub struct SpatialIndex {
    pub points: Vec<Vec2>,
}

/// Whether the point at index `i` comes before the point at index `j` in
/// the order of a query from `q`: it is nearer, or as near and entered
/// earlier.
pub open spec fn closer(points: Seq<Vec2>, q: Vec2, i: int, j: int) -> bool {
    dist_sq(points[i], q) < dist_sq(points[j], q) || (dist_sq(points[i], q) == dist_sq(points[j], q)
        && i < j)
}

/// Whether the index `j` occurs in `r`.
pub open spec fn listed(r: Seq<usize>, j: int) -> bool {
    exists|a: int| 0 <= a < r.len() && #[trigger] r[a] == j
}

/// Whether `r` lists, in the order of a query from `q`, the `k` points that
/// come first in that order among the first `limit` points, or all of them
/// where there are fewer than `k`.
pub open spec fn nearest_among(points: Seq<Vec2>, q: Vec2, k: int, limit: int, r: Seq<usize>) -> bool {
    &&& r.len() == if k < limit { k } else { limit }
    &&& forall|a: int| 0 <= a < r.len() ==> 0 <= #[trigger] r[a] < limit
    &&& forall|a: int, b: int|
        0 <= a < b < r.len() ==> closer(points, q, #[trigger] r[a] as int, #[trigger] r[b] as int)
    &&& forall|a: int, j: int|
        0 <= a < r.len() && 0 <= j < limit && !#[trigger] listed(r, j) ==> closer(
            points,
            q,
            #[trigger] r[a] as int,
            j,
        )
}

/// What `r` is once the point at index `i` has been weighed: entered at
/// place `p`, and the list cut back to `k` entries.
pub open spec fn weighed(r: Seq<usize>, p: int, i: usize, k: int) -> Seq<usize> {
    if p >= k {
        r
    } else if r.len() + 1 > k {
        r.insert(p, i).drop_last()
    } else {
        r.insert(p, i)
    }
}

/// Entering the next point at its place keeps the list the list of the
/// nearest points.
proof fn lemma_weighed(points: Seq<Vec2>, q: Vec2, k: int, i: usize, r: Seq<usize>, p: int)
    requires
        0 <= k,
        i < points.len(),
        nearest_among(points, q, k, i as int, r),
        r.len() < k ==> forall|j: int| 0 <= j < i ==> listed(r, j),
        0 <= p <= r.len(),
        forall|a: int| 0 <= a < p ==> closer(points, q, #[trigger] r[a] as int, i as int),
        p < r.len() ==> closer(points, q, i as int, r[p] as int),
    ensures
        nearest_among(points, q, k, i + 1, weighed(r, p, i, k)),
        weighed(r, p, i, k).len() < k ==> forall|j: int| 0 <= j < i + 1 ==> listed(weighed(r, p, i, k), j),
{
    let w = weighed(r, p, i, k);
    let ins = r.insert(p, i);
    r.insert_ensures(p, i);
    assert forall|a: int| p <= a < r.len() implies closer(points, q, i as int, #[trigger] r[a] as int) by {
        if a > p {
            assert(closer(points, q, r[p] as int, r[a] as int));
        }
    }
    if p >= k {
        assert(r.len() == k);
        assert forall|a: int, j: int| 0 <= a < w.len() && 0 <= j < i + 1 && !#[trigger] listed(w, j) implies closer(
            points,
            q,
            #[trigger] w[a] as int,
            j,
        ) by {
            if j == i {
                assert(closer(points, q, r[a] as int, i as int));
            }
        }
    } else {
        assert forall|a: int| 0 <= a < ins.len() implies 0 <= #[trigger] ins[a] < i + 1 by {
            if a > p {
                assert(ins[(a - 1) + 1] == r[a - 1]);
            }
        }
        assert forall|a: int, b: int| 0 <= a < b < ins.len() implies closer(
            points,
            q,
            #[trigger] ins[a] as int,
            #[trigger] ins[b] as int,
        ) by {
            if a > p {
                assert(ins[(a - 1) + 1] == r[a - 1]);
            }
            if b > p {
                assert(ins[(b - 1) + 1] == r[b - 1]);
            }
            if a < p && b > p {
                assert(closer(points, q, r[a] as int, i as int));
                assert(closer(points, q, i as int, r[b - 1] as int));
            }
        }
        assert forall|j: int| listed(r, j) implies listed(ins, j) by {
            let a = choose|a: int| 0 <= a < r.len() && #[trigger] r[a] == j;
            if a < p {
                assert(ins[a] == j);
            } else {
                assert(ins[a + 1] == j);
            }
        }
        assert(listed(ins, i as int)) by {
            assert(ins[p] == i);
        }
        assert forall|a: int, j: int| 0 <= a < ins.len() && 0 <= j < i + 1 && !#[trigger] listed(ins, j) implies closer(
            points,
            q,
            #[trigger] ins[a] as int,
            j,
        ) by {
            assert(!listed(r, j));
            assert(j != i);
            if r.len() < k {
                assert(listed(r, j));
            }
            if a > p {
                assert(ins[(a - 1) + 1] == r[a - 1]);
                assert(closer(points, q, r[a - 1] as int, j));
            } else if a < p {
                assert(closer(points, q, r[a] as int, j));
            } else {
                assert(r.len() == k);
                assert(p < r.len());
                assert(closer(points, q, r[p] as int, j));
            }
        }
        if r.len() + 1 > k {
            let last = ins[ins.len() - 1];
            assert(w.len() == k);
            assert forall|a: int| 0 <= a < w.len() implies w[a] == ins[a] by {}
            assert forall|a: int, j: int| 0 <= a < w.len() && 0 <= j < i + 1 && !#[trigger] listed(w, j) implies closer(
                points,
                q,
                #[trigger] w[a] as int,
                j,
            ) by {
                if listed(ins, j) {
                    let b = choose|b: int| 0 <= b < ins.len() && #[trigger] ins[b] == j;
                    if b < w.len() {
                        assert(w[b] == j);
                        assert(listed(w, j));
                    }
                    assert(b == ins.len() - 1);
                    assert(closer(points, q, ins[a] as int, ins[b] as int));
                } else {
                    assert(closer(points, q, ins[a] as int, j));
                }
            }
        } else {
            assert(w == ins);
            if w.len() < k {
                assert forall|j: int| 0 <= j < i + 1 implies listed(w, j) by {
                    if j < i {
                        assert(listed(r, j));
                    }
                }
            }
        }
    }
}

/// Where two lists agree below the place `a`, they agree at `a` too.
proof fn lemma_same_at(points: Seq<Vec2>, q: Vec2, k: int, limit: int, r: Seq<usize>, s: Seq<usize>, a: int)
    requires
        nearest_among(points, q, k, limit, r),
        nearest_among(points, q, k, limit, s),
        0 <= a < r.len(),
        forall|b: int| 0 <= b < a ==> r[b] == s[b],
    ensures
        r[a] == s[a],
{
    if r[a] != s[a] {
        lemma_not_before(points, q, k, limit, r, s, a);
        lemma_not_before(points, q, k, limit, s, r, a);
    }
}

/// Where two lists agree below the place `a`, the entry of the first at `a`
/// does not come before that of the second in the order of the query.
proof fn lemma_not_before(points: Seq<Vec2>, q: Vec2, k: int, limit: int, r: Seq<usize>, s: Seq<usize>, a: int)
    requires
        nearest_among(points, q, k, limit, r),
        nearest_among(points, q, k, limit, s),
        0 <= a < r.len(),
        forall|b: int| 0 <= b < a ==> r[b] == s[b],
        r[a] != s[a],
    ensures
        !closer(points, q, r[a] as int, s[a] as int),
{
    if closer(points, q, r[a] as int, s[a] as int) {
        if listed(s, r[a] as int) {
            let c = choose|c: int| 0 <= c < s.len() && #[trigger] s[c] == r[a] as int;
            if c < a {
                assert(r[c] == s[c]);
                assert(closer(points, q, r[c] as int, r[a] as int));
            } else {
                assert(closer(points, q, s[a] as int, s[c] as int));
            }
        } else {
            assert(closer(points, q, s[a] as int, r[a] as int));
        }
    }
}

/// Where two lists agree below the place `a`, they agree below every later
/// place.
proof fn lemma_same_upto(points: Seq<Vec2>, q: Vec2, k: int, limit: int, r: Seq<usize>, s: Seq<usize>, a: int)
    requires
        nearest_among(points, q, k, limit, r),
        nearest_among(points, q, k, limit, s),
        0 <= a <= r.len(),
    ensures
        forall|b: int| 0 <= b < a ==> r[b] == s[b],
    decreases a,
{
    if a > 0 {
        lemma_same_upto(points, q, k, limit, r, s, a - 1);
        lemma_same_at(points, q, k, limit, r, s, a - 1);
    }
}

/// A query has one answer: two lists of the nearest points are the same
/// list.
pub proof fn lemma_nearest_unique(points: Seq<Vec2>, q: Vec2, k: int, limit: int, r: Seq<usize>, s: Seq<usize>)
    requires
        nearest_among(points, q, k, limit, r),
        nearest_among(points, q, k, limit, s),
    ensures
        r == s,
{
    lemma_same_upto(points, q, k, limit, r, s, r.len() as int);
    assert(r =~= s);
}

impl SpatialIndex {
    /// An index that holds no point.
    pub fn new() -> (s: SpatialIndex)
        ensures
            s.points@ == Seq::<Vec2>::empty(),
    {
        SpatialIndex { points: Vec::new() }
    }

    /// Replaces what the index holds by the given positions, in their order.
    pub fn rebuild(&mut self, positions: &Vec<Vec2>)
        ensures
            final(self).points@ == positions@,
    {
        let mut points: Vec<Vec2> = Vec::new();
        let mut i: usize = 0;
        while i < positions.len()
            invariant
                i <= positions@.len(),
                points@ == positions@.take(i as int),
            decreases positions@.len() - i,
        {
            points.push(positions[i]);
            assert(points@ =~= positions@.take(i + 1));
            i = i + 1;
        }
        assert(positions@.take(positions@.len() as int) =~= positions@);
        self.points = points;
    }

    /// The indices of the `k` points nearest to `q`, nearest first; of points
    /// at the same distance, the one that was entered earlier comes first.
    /// Where the index holds fewer than `k` points, all are returned.
    pub fn k_nearest_neighbour(&self, q: Vec2, k: usize) -> (r: Vec<usize>)
        ensures
            nearest_among(self.points@, q, k as int, self.points@.len() as int, r@),
    {
        let mut out: Vec<usize> = Vec::new();
        let mut dists: Vec<u128> = Vec::new();
        let mut i: usize = 0;
        while i < self.points.len()
            invariant
                i <= self.points@.len(),
                nearest_among(self.points@, q, k as int, i as int, out@),
                out@.len() < k ==> forall|j: int| 0 <= j < i ==> listed(out@, j),
                dists@.len() == out@.len(),
                forall|a: int|
                    0 <= a < out@.len() ==> #[trigger] dists@[a] == dist_sq(
                        self.points@[out@[a] as int],
                        q,
                    ),
            decreases self.points@.len() - i,
        {
            let d: u128 = distance_squared(self.points[i], q);
            let mut p: usize = 0;
            while p < out.len() && dists[p] <= d
                invariant
                    p <= out@.len(),
                    dists@.len() == out@.len(),
                    i < self.points@.len(),
                    d == dist_sq(self.points@[i as int], q),
                    forall|a: int| 0 <= a < out@.len() ==> 0 <= #[trigger] out@[a] < i,
                    forall|a: int|
                        0 <= a < out@.len() ==> #[trigger] dists@[a] == dist_sq(
                            self.points@[out@[a] as int],
                            q,
                        ),
                    forall|a: int|
                        0 <= a < p ==> closer(self.points@, q, #[trigger] out@[a] as int, i as int),
                decreases out@.len() - p,
            {
                p = p + 1;
            }
            let ghost prev = out@;
            let ghost prev_dists = dists@;
            proof {
                lemma_weighed(self.points@, q, k as int, i, prev, p as int);
                prev.insert_ensures(p as int, i);
                prev_dists.insert_ensures(p as int, d);
            }
            if p < k {
                out.insert(p, i);
                dists.insert(p, d);
                assert forall|a: int| 0 <= a < out@.len() implies #[trigger] dists@[a] == dist_sq(
                    self.points@[out@[a] as int],
                    q,
                ) by {
                    if a > p {
                        assert(out@[(a - 1) + 1] == prev[a - 1]);
                        assert(dists@[(a - 1) + 1] == prev_dists[a - 1]);
                    }
                }
                if out.len() > k {
                    out.pop();
                    dists.pop();
                    assert(out@ =~= prev.insert(p as int, i).drop_last());
                }
            }
            assert(out@ == weighed(prev, p as int, i, k as int));
            i = i + 1;
        }
        out
    }
}

} // verus!
