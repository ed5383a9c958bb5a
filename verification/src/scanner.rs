//! The scanner: a slow timer that reveals the nearest point of interest that
//! the player has not found yet, and a check that reveals whatever comes
//! into view.

use vstd::prelude::*;
use crate::geometry::{dist_sq, distance_squared, Vec2};
use crate::timer::{fresh, reset_spec, tick_spec, Timer, TimerMode};

verus! {

/// Period of the scanner, in milliseconds.
pub const SCAN_PERIOD: u64 = 45_000;

/// An entity that can be pointed at, with its handle and where it is.
#[derive(Clone, Copy, Debug, PartialEq, Eq, Structural)]
pub struct Target {
    pub id: u64,
    pub position: Vec2,
}

/// The scanner's timer and its two pools of handles that are still hidden:
/// commodities, which are revealed first, and warp nodes.
#[derive(Clone, Debug)]
pub struct Scanner {
    pub timer: Timer,
    pub commodities: Vec<u64>,
    pub warp_nodes: Vec<u64>,
}

/// The position of the first target from index `from` on that has the
/// handle `id`.
pub open spec fn lookup_from(targets: Seq<Target>, id: u64, from: int) -> Option<Vec2>
    decreases targets.len() - from,
{
    if from < 0 || from >= targets.len() {
        None
    } else if targets[from].id == id {
        Some(targets[from].position)
    } else {
        lookup_from(targets, id, from + 1)
    }
}

/// The position of the entity with the handle `id`, if it still exists.
pub open spec fn lookup(targets: Seq<Target>, id: u64) -> Option<Vec2> {
    lookup_from(targets, id, 0)
}

/// Whether the pool's entry `i` exists and no entry is nearer to the player;
/// among entries at the same distance, the one that comes first in the pool.
pub open spec fn is_nearest(pool: Seq<u64>, targets: Seq<Target>, player: Vec2, i: int) -> bool {
    &&& 0 <= i < pool.len()
    &&& lookup(targets, pool[i]) is Some
    &&& forall|j: int|
        0 <= j < pool.len() && (#[trigger] lookup(targets, pool[j])) is Some ==> {
            let di = dist_sq(lookup(targets, pool[i])->0, player);
            let dj = dist_sq(lookup(targets, pool[j])->0, player);
            di < dj || (di == dj && i <= j)
        }
}

/// Whether no entry of the pool exists any more.
pub open spec fn none_exists(pool: Seq<u64>, targets: Seq<Target>) -> bool {
    forall|j: int| 0 <= j < pool.len() ==> (#[trigger] lookup(targets, pool[j])) is None
}

/// Whether `p` lies strictly inside the rectangle from `min` to `max`.
pub open spec fn strictly_inside(p: Vec2, min: Vec2, max: Vec2) -> bool {
    min.x < p.x < max.x && min.y < p.y < max.y
}

/// Whether the entity with the handle `id` exists and is in view.
pub open spec fn in_view(targets: Seq<Target>, id: u64, min: Vec2, max: Vec2) -> bool {
    match lookup(targets, id) {
        Some(p) => strictly_inside(p, min, max),
        None => false,
    }
}

/// The pool without the entry `i`, whose place the last entry takes.
pub open spec fn without(pool: Seq<u64>, i: int) -> Seq<u64> {
    pool.update(i, pool.last()).drop_last()
}

/// The timer after a reveal: stopped at zero once the pool is empty.
pub open spec fn rest_if_empty(t: Timer, pool: Seq<u64>) -> Timer {
    if pool.len() == 0 { Timer { paused: true, ..reset_spec(t) } } else { t }
}

/// The position of the entity with the handle `id`, if it still exists.
pub fn find_target(targets: &Vec<Target>, id: u64) -> (r: Option<Vec2>)
    ensures
        r == lookup(targets@, id),
{
    let mut i: usize = 0;
    while i < targets.len()
        invariant
            i <= targets.len(),
            lookup(targets@, id) == lookup_from(targets@, id, i as int),
        decreases targets.len() - i,
    {
        if targets[i].id == id {
            return Some(targets[i].position);
        }
        i = i + 1;
    }
    None
}

/// The index of the pool's entry that is nearest to the player, if any entry
/// still exists.
pub fn nearest_candidate(pool: &Vec<u64>, targets: &Vec<Target>, player: Vec2) -> (r: Option<usize>)
    ensures
        match r {
            Some(i) => is_nearest(pool@, targets@, player, i as int),
            None => none_exists(pool@, targets@),
        },
{
    let mut best: Option<(usize, u128)> = None;
    let mut i: usize = 0;
    while i < pool.len()
        invariant
            i <= pool.len(),
            match best {
                Some(b) => {
                    &&& b.0 < i
                    &&& lookup(targets@, pool@[b.0 as int]) is Some
                    &&& b.1 == dist_sq(lookup(targets@, pool@[b.0 as int])->0, player)
                    &&& forall|j: int|
                        0 <= j < i && (#[trigger] lookup(targets@, pool@[j])) is Some ==> {
                            let dj = dist_sq(lookup(targets@, pool@[j])->0, player);
                            b.1 < dj || (b.1 == dj && b.0 <= j)
                        }
                },
                None => forall|j: int| 0 <= j < i ==> (#[trigger] lookup(targets@, pool@[j])) is None,
            },
        decreases pool.len() - i,
    {
        match find_target(targets, pool[i]) {
            Some(p) => {
                let d: u128 = distance_squared(p, player);
                match best {
                    Some(b) => {
                        if d < b.1 {
                            best = Some((i, d));
                        }
                    },
                    None => {
                        best = Some((i, d));
                    },
                }
            },
            None => {},
        }
        i = i + 1;
    }
    match best {
        Some(b) => Some(b.0),
        None => None,
    }
}

/// Reveals the pool's nearest entry: takes it out of the pool and returns
/// its handle. The pool stays as it is where none of its entries exists.
pub fn reveal_nearest(pool: &mut Vec<u64>, targets: &Vec<Target>, player: Vec2) -> (r: Option<u64>)
    ensures
        match r {
            Some(id) => exists|i: int|
                #![trigger old(pool)@[i]]
                is_nearest(old(pool)@, targets@, player, i) && old(pool)@[i] == id && final(pool)@
                    == without(old(pool)@, i),
            None => none_exists(old(pool)@, targets@) && final(pool)@ == old(pool)@,
        },
{
    match nearest_candidate(pool, targets, player) {
        Some(i) => {
            let id: u64 = pool.swap_remove(i);
            Some(id)
        },
        None => None,
    }
}

/// Whether `p` lies strictly inside the rectangle from `min` to `max`.
pub fn point_in_view(p: Vec2, min: Vec2, max: Vec2) -> (r: bool)
    ensures
        r == strictly_inside(p, min, max),
{
    min.x < p.x && p.x < max.x && min.y < p.y && p.y < max.y
}

/// Parts a pool into the handles that are in view, which are appended to
/// `revealed`, and the others, which are returned; both keep their order.
pub fn split_in_view(
    pool: &Vec<u64>,
    targets: &Vec<Target>,
    min: Vec2,
    max: Vec2,
    revealed: &mut Vec<u64>,
) -> (kept: Vec<u64>)
    ensures
        kept@ == pool@.filter(|id: u64| !in_view(targets@, id, min, max)),
        final(revealed)@ == old(revealed)@ + pool@.filter(|id: u64| in_view(targets@, id, min, max)),
{
    let ghost seen = |id: u64| in_view(targets@, id, min, max);
    let ghost hidden = |id: u64| !in_view(targets@, id, min, max);
    let ghost before = revealed@;
    let mut kept: Vec<u64> = Vec::new();
    let mut i: usize = 0;
    assert(pool@.take(0) =~= Seq::<u64>::empty());
    assert(revealed@ =~= before + pool@.take(0).filter(seen));
    while i < pool.len()
        invariant
            i <= pool.len(),
            seen == (|id: u64| in_view(targets@, id, min, max)),
            hidden == (|id: u64| !in_view(targets@, id, min, max)),
            kept@ == pool@.take(i as int).filter(hidden),
            revealed@ == before + pool@.take(i as int).filter(seen),
        decreases pool.len() - i,
    {
        let id: u64 = pool[i];
        let visible: bool = match find_target(targets, id) {
            Some(p) => point_in_view(p, min, max),
            None => false,
        };
        proof {
            pool@.lemma_take_succ_push(i as int);
            pool@.take(i as int).lemma_filter_push(id, seen);
            pool@.take(i as int).lemma_filter_push(id, hidden);
        }
        if visible {
            revealed.push(id);
            assert(revealed@ =~= before + pool@.take(i + 1).filter(seen));
        } else {
            kept.push(id);
        }
        i = i + 1;
    }
    assert(pool@.take(pool@.len() as int) =~= pool@);
    kept
}

impl Scanner {
    /// Reveals every hidden commodity and warp node that is in view, which is
    /// strictly inside the rectangle from `view_min` to `view_max`: their
    /// handles leave the pools and are returned, commodities first, each
    /// group in the order of its pool. The timer is left alone.
    pub fn proximity(&mut self, targets: &Vec<Target>, view_min: Vec2, view_max: Vec2) -> (revealed: Vec<u64>)
        ensures
            final(self).timer == old(self).timer,
            final(self).commodities@ == old(self).commodities@.filter(
                |id: u64| !in_view(targets@, id, view_min, view_max),
            ),
            final(self).warp_nodes@ == old(self).warp_nodes@.filter(
                |id: u64| !in_view(targets@, id, view_min, view_max),
            ),
            revealed@ == old(self).commodities@.filter(
                |id: u64| in_view(targets@, id, view_min, view_max),
            ) + old(self).warp_nodes@.filter(|id: u64| in_view(targets@, id, view_min, view_max)),
    {
        let mut revealed: Vec<u64> = Vec::new();
        let commodities = split_in_view(&self.commodities, targets, view_min, view_max, &mut revealed);
        let warp_nodes = split_in_view(&self.warp_nodes, targets, view_min, view_max, &mut revealed);
        self.commodities = commodities;
        self.warp_nodes = warp_nodes;
        revealed
    }

    /// A scanner is valid when its timer is.
    pub open spec fn wf(self) -> bool {
        self.timer.wf()
    }

    /// Whether the scanner is valid: its timer is.
    pub fn is_valid(&self) -> (r: bool)
        ensures
            r == self.wf(),
    {
        self.timer.is_valid()
    }

    /// A scanner with nothing to look for.
    pub fn new() -> (s: Scanner)
        ensures
            s.timer == fresh(SCAN_PERIOD, TimerMode::Repeating),
            s.commodities@ == Seq::<u64>::empty(),
            s.warp_nodes@ == Seq::<u64>::empty(),
            s.wf(),
    {
        Scanner {
            timer: Timer::new(SCAN_PERIOD, TimerMode::Repeating),
            commodities: Vec::new(),
            warp_nodes: Vec::new(),
        }
    }

    /// Forgets both pools and starts the timer afresh.
    pub fn reset(&mut self)
        ensures
            final(self).timer == fresh(SCAN_PERIOD, TimerMode::Repeating),
            final(self).commodities@ == Seq::<u64>::empty(),
            final(self).warp_nodes@ == Seq::<u64>::empty(),
            final(self).wf(),
    {
        *self = Scanner::new();
    }

    /// Advances the timer by `delta`. Where it fires, the nearest hidden
    /// commodity is revealed, or the nearest hidden warp node once no
    /// commodity is hidden: its handle leaves the pool and is returned.
    /// Once the pool that was searched is empty, the timer is set back and
    /// paused.
    pub fn update(&mut self, delta: u64, player: Vec2, targets: &Vec<Target>) -> (r: Option<u64>)
        requires
            old(self).wf(),
        ensures
            final(self).wf(),
            !tick_spec(old(self).timer, delta).fired() ==> {
                &&& r is None
                &&& final(self).timer == tick_spec(old(self).timer, delta)
                &&& final(self).commodities@ == old(self).commodities@
                &&& final(self).warp_nodes@ == old(self).warp_nodes@
            },
            tick_spec(old(self).timer, delta).fired() && old(self).commodities@.len() > 0 ==> {
                &&& final(self).warp_nodes@ == old(self).warp_nodes@
                &&& final(self).timer == rest_if_empty(
                    tick_spec(old(self).timer, delta),
                    final(self).commodities@,
                )
                &&& match r {
                    Some(id) => exists|i: int|
                        #![trigger old(self).commodities@[i]]
                        is_nearest(old(self).commodities@, targets@, player, i) && old(
                            self,
                        ).commodities@[i] == id && final(self).commodities@ == without(
                            old(self).commodities@,
                            i,
                        ),
                    None => none_exists(old(self).commodities@, targets@) && final(self).commodities@
                        == old(self).commodities@,
                }
            },
            tick_spec(old(self).timer, delta).fired() && old(self).commodities@.len() == 0 ==> {
                &&& final(self).commodities@ == old(self).commodities@
                &&& final(self).timer == rest_if_empty(
                    tick_spec(old(self).timer, delta),
                    final(self).warp_nodes@,
                )
                &&& match r {
                    Some(id) => exists|i: int|
                        #![trigger old(self).warp_nodes@[i]]
                        is_nearest(old(self).warp_nodes@, targets@, player, i) && old(
                            self,
                        ).warp_nodes@[i] == id && final(self).warp_nodes@ == without(
                            old(self).warp_nodes@,
                            i,
                        ),
                    None => none_exists(old(self).warp_nodes@, targets@) && final(self).warp_nodes@
                        == old(self).warp_nodes@,
                }
            },
    {
        self.timer.tick(delta);
        if !self.timer.just_finished() {
            return None;
        }
        let from_commodities: bool = !self.commodities.is_empty();
        let revealed: Option<u64> = if from_commodities {
            reveal_nearest(&mut self.commodities, targets, player)
        } else {
            reveal_nearest(&mut self.warp_nodes, targets, player)
        };
        let exhausted: bool = if from_commodities {
            self.commodities.is_empty()
        } else {
            self.warp_nodes.is_empty()
        };
        if exhausted {
            self.timer.reset();
            self.timer.pause();
        }
        revealed
    }

    /// Lets the timer run again once every commodity has been collected and
    /// warp nodes are still hidden. `commodities_left` is the number of
    /// commodities that still exist in the level.
    pub fn unpause(&mut self, commodities_left: usize)
        ensures
            final(self).commodities@ == old(self).commodities@,
            final(self).warp_nodes@ == old(self).warp_nodes@,
            final(self).timer == if commodities_left == 0 && old(self).warp_nodes@.len() > 0 {
                Timer { paused: false, ..old(self).timer }
            } else {
                old(self).timer
            },
    {
        if commodities_left != 0 {
            return ;
        }
        if self.warp_nodes.is_empty() {
            return ;
        }
        self.timer.unpause();
    }
}

} // verus!
