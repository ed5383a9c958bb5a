//! The enemy population: when enemies appear, how the pressure rises, how
//! they steer, and when they leave.

use vstd::prelude::*;
use crate::components::Health;
use crate::fuel::SpawnFuelPelletEvent;
use crate::geometry::{
    add_sat, dist_sq, distance_squared, lemma_projection_on_edge, negated, nonzero, norm_sq, on_edge,
    project_onto_bounding_rectangle, project_spec, rescale, rescale_spec, sub_sat, Edge, Vec2,
};
use crate::spatial::{nearest_among, SpatialIndex};
use crate::timer::{fresh, reset_spec, tick_spec, Timer, TimerMode};

verus! {

/// Period of the spawn timer at the start of a level, in milliseconds.
pub const SPAWN_PERIOD: u64 = 2000;

/// The shortest period that the spawn timer is ever given.
pub const SPAWN_PERIOD_FLOOR: u64 = 500;

/// Period of the timer that shortens the spawn period.
pub const RAMP_PERIOD: u64 = 30_000;

/// The number of live enemies at which no more are spawned.
pub const MAX_ENEMIES: usize = 500;

/// Half the width of the rectangle on whose edge enemies appear.
pub const SPAWN_HALF_WIDTH: i32 = 700_000;

/// Half the height of the rectangle on whose edge enemies appear.
pub const SPAWN_HALF_HEIGHT: i32 = 410_000;

/// The speed of an enemy.
pub const ENEMY_SPEED: u32 = 30_000;

/// The health that an enemy starts with.
pub const ENEMY_HEALTH: i64 = 1000;

/// Enemies farther than this from the player are removed.
pub const CULL_DISTANCE: u64 = 700_000;

/// An enemy steers away from a neighbour that is nearer than this.
pub const SEPARATION_RADIUS: u64 = 30_000;

/// The length of a direction vector: one, in thousandths.
pub const UNIT: u32 = 1000;

/// An enemy ship.
#[derive(Clone, Copy, Debug, PartialEq, Eq, Structural)]
pub struct Enemy {
    pub position: Vec2,
    pub velocity: Vec2,
    pub max_speed: u32,
    pub health: Health,
}

/// The timers and the cap that govern how many enemies there are.
#[derive(Clone, Copy, Debug, PartialEq, Eq, Structural)]
pub struct SpawnController {
    pub spawn_timer: Timer,
    pub ramp_timer: Timer,
    pub max_enemies: usize,
}

/// An enemy as it appears: at rest, at full health.
pub open spec fn new_enemy(position: Vec2) -> Enemy {
    Enemy {
        position,
        velocity: Vec2 { x: 0, y: 0 },
        max_speed: ENEMY_SPEED,
        health: Health { current: ENEMY_HEALTH, max: ENEMY_HEALTH },
    }
}

/// The point of a projection, or the origin where there is none.
pub open spec fn hit_point(hit: Option<(Vec2, Edge)>) -> Vec2 {
    match hit {
        Some(h) => h.0,
        None => Vec2 { x: 0, y: 0 },
    }
}

/// Where an enemy appears: on the edge of the spawn rectangle around the
/// player, in the direction `dir` from the player.
pub open spec fn spawn_position(dir: Vec2, player: Vec2) -> Vec2 {
    add_sat(hit_point(project_spec(dir, spawn_bounds().0, spawn_bounds().1)), player)
}

/// The bounds of the spawn rectangle around the origin.
pub open spec fn spawn_bounds() -> (Vec2, Vec2) {
    (
        Vec2 { x: (-SPAWN_HALF_WIDTH) as i32, y: (-SPAWN_HALF_HEIGHT) as i32 },
        Vec2 { x: SPAWN_HALF_WIDTH, y: SPAWN_HALF_HEIGHT },
    )
}

/// Wherever the player is and whichever way the direction points, an enemy
/// appears on the border of the spawn rectangle around the player: its
/// offset from the player lies on a side of that rectangle.
pub proof fn lemma_spawn_on_border(dir: Vec2)
    requires
        nonzero(dir),
    ensures
        project_spec(dir, spawn_bounds().0, spawn_bounds().1) matches Some(hit) && on_edge(
            hit.0,
            hit.1,
            spawn_bounds().0,
            spawn_bounds().1,
        ),
{
    lemma_projection_on_edge(dir, spawn_bounds().0, spawn_bounds().1);
}

/// The spawn period after the ramp timer has fired: half of what it was, but
/// not below the floor.
pub open spec fn ramped(period: u64) -> u64 {
    if period / 2 >= SPAWN_PERIOD_FLOOR { period / 2 } else { SPAWN_PERIOD_FLOOR }
}

impl SpawnController {
    /// Both timers are valid and repeat.
    pub open spec fn wf(self) -> bool {
        &&& self.spawn_timer.wf()
        &&& self.ramp_timer.wf()
        &&& self.spawn_timer.mode == TimerMode::Repeating
        &&& self.ramp_timer.mode == TimerMode::Repeating
    }

    /// The controller at the start of a level.
    pub open spec fn initial() -> SpawnController {
        SpawnController {
            spawn_timer: fresh(SPAWN_PERIOD, TimerMode::Repeating),
            ramp_timer: fresh(RAMP_PERIOD, TimerMode::Repeating),
            max_enemies: MAX_ENEMIES,
        }
    }

    /// The controller at the start of a level.
    pub fn new() -> (c: SpawnController)
        ensures
            c == Self::initial(),
            c.wf(),
    {
        SpawnController {
            spawn_timer: Timer::new(SPAWN_PERIOD, TimerMode::Repeating),
            ramp_timer: Timer::new(RAMP_PERIOD, TimerMode::Repeating),
            max_enemies: MAX_ENEMIES,
        }
    }

    /// Whether the controller is valid: both timers are valid and repeat.
    pub fn is_valid(&self) -> (r: bool)
        ensures
            r == self.wf(),
    {
        self.spawn_timer.is_valid() && self.ramp_timer.is_valid() && self.spawn_timer.mode
            == TimerMode::Repeating && self.ramp_timer.mode == TimerMode::Repeating
    }

    /// Advances the spawn timer by `delta` and, where it fires while fewer
    /// than the cap of enemies are alive, returns the enemy to add.
    ///
    /// The enemy appears on the edge of the spawn rectangle around `player`,
    /// in the direction `dir`, which must not be the zero vector. At the cap
    /// the spawn is skipped, not put off.
    pub fn spawn_enemy(&mut self, delta: u64, live: usize, dir: Vec2, player: Vec2) -> (r: Option<Enemy>)
        requires
            old(self).wf(),
            dir.x != 0 || dir.y != 0,
        ensures
            final(self).wf(),
            final(self).spawn_timer == tick_spec(old(self).spawn_timer, delta),
            final(self).ramp_timer == old(self).ramp_timer,
            final(self).max_enemies == old(self).max_enemies,
            r == if final(self).spawn_timer.fired() && live < old(self).max_enemies {
                Some(new_enemy(spawn_position(dir, player)))
            } else {
                None
            },
    {
        self.spawn_timer.tick(delta);
        if !self.spawn_timer.just_finished() {
            return None;
        }
        if live >= self.max_enemies {
            return None;
        }
        let min = Vec2 { x: -SPAWN_HALF_WIDTH, y: -SPAWN_HALF_HEIGHT };
        let max = Vec2 { x: SPAWN_HALF_WIDTH, y: SPAWN_HALF_HEIGHT };
        match project_onto_bounding_rectangle(dir, min, max) {
            Some(hit) => {
                let position = hit.0.saturating_add(player);
                Some(
                    Enemy {
                        position,
                        velocity: Vec2::zero(),
                        max_speed: ENEMY_SPEED,
                        health: Health::full(ENEMY_HEALTH),
                    },
                )
            },
            None => None,
        }
    }

    /// Advances the ramp timer by `delta`; where it fires, the spawn period
    /// is halved, down to the floor. Returns whether it fired.
    pub fn ramp_up(&mut self, delta: u64) -> (fired: bool)
        requires
            old(self).wf(),
        ensures
            final(self).wf(),
            final(self).ramp_timer == tick_spec(old(self).ramp_timer, delta),
            final(self).max_enemies == old(self).max_enemies,
            fired == final(self).ramp_timer.fired(),
            final(self).spawn_timer == if fired {
                Timer { duration: ramped(old(self).spawn_timer.duration), ..old(self).spawn_timer }
            } else {
                old(self).spawn_timer
            },
    {
        self.ramp_timer.tick(delta);
        if !self.ramp_timer.just_finished() {
            return false;
        }
        let half: u64 = self.spawn_timer.duration() / 2;
        let period: u64 = if half >= SPAWN_PERIOD_FLOOR { half } else { SPAWN_PERIOD_FLOOR };
        self.spawn_timer.set_duration(period);
        true
    }

    /// Puts the spawn period back to its initial value and restarts the ramp.
    pub fn reset_timers(&mut self)
        requires
            old(self).wf(),
        ensures
            final(self).wf(),
            final(self).spawn_timer == Self::initial().spawn_timer,
            final(self).ramp_timer == reset_spec(old(self).ramp_timer),
            final(self).max_enemies == old(self).max_enemies,
    {
        self.spawn_timer = Timer::new(SPAWN_PERIOD, TimerMode::Repeating);
        self.ramp_timer.reset();
    }
}

/// The direction from `from` toward `to`, as a vector of length one in
/// thousandths; the zero vector where the two are the same point.
pub open spec fn direction(from: Vec2, to: Vec2) -> Vec2 {
    let diff = sub_sat(to, from);
    if nonzero(diff) { rescale_spec(diff, UNIT) } else { Vec2 { x: 0, y: 0 } }
}

/// The push away from a neighbour: the direction away from it where it is
/// within the separation radius, else none.
pub open spec fn repulsion(position: Vec2, neighbour: Option<Vec2>) -> Vec2 {
    match neighbour {
        Some(n) => if dist_sq(n, position) < SEPARATION_RADIUS * SEPARATION_RADIUS {
            negated(direction(position, n))
        } else {
            Vec2 { x: 0, y: 0 }
        },
        None => Vec2 { x: 0, y: 0 },
    }
}

/// The velocity of an enemy that steers toward the player and away from its
/// neighbour: the two directions are added, and the sum is given the length
/// of the enemy's speed. Where they cancel, the enemy stands still.
pub open spec fn steering(e: Enemy, player: Vec2, neighbour: Option<Vec2>) -> Vec2 {
    let blend = add_sat(direction(e.position, player), repulsion(e.position, neighbour));
    if nonzero(blend) { rescale_spec(blend, e.max_speed) } else { Vec2 { x: 0, y: 0 } }
}

/// The second point of a list of nearest points, if it has one: the nearest
/// point is taken to be the asking enemy itself.
pub open spec fn second_of(points: Seq<Vec2>, nearest: Seq<usize>) -> Option<Vec2> {
    if nearest.len() >= 2 { Some(points[nearest[1] as int]) } else { None }
}

/// Whether `after` is `before` with the velocity that steering gives it,
/// where its neighbour is the second of the two points of the index that
/// are nearest to it.
pub open spec fn steered(before: Enemy, after: Enemy, player: Vec2, points: Seq<Vec2>) -> bool {
    exists|nearest: Seq<usize>|
        #![trigger second_of(points, nearest)]
        nearest_among(points, before.position, 2, points.len() as int, nearest) && after == (Enemy {
            velocity: steering(before, player, second_of(points, nearest)),
            ..before
        })
}

/// The direction from `from` toward `to`, as a vector of length one in
/// thousandths; the zero vector where the two are the same point.
pub fn direction_to(from: Vec2, to: Vec2) -> (r: Vec2)
    ensures
        r == direction(from, to),
{
    let diff: Vec2 = to.saturating_sub(from);
    if diff.is_nonzero() {
        rescale(diff, UNIT)
    } else {
        Vec2::zero()
    }
}

/// The velocity of an enemy that steers toward the player and away from
/// `neighbour`. It is never faster than the enemy's speed.
pub fn steer(e: &Enemy, player: Vec2, neighbour: Option<Vec2>) -> (r: Vec2)
    ensures
        r == steering(*e, player, neighbour),
        norm_sq(r) <= e.max_speed * e.max_speed,
{
    let pull: Vec2 = direction_to(e.position, player);
    let reach: u128 = (SEPARATION_RADIUS as u128) * (SEPARATION_RADIUS as u128);
    let push: Vec2 = match neighbour {
        Some(n) => {
            if distance_squared(n, e.position) < reach {
                direction_to(e.position, n).negate()
            } else {
                Vec2::zero()
            }
        },
        None => Vec2::zero(),
    };
    let blend: Vec2 = pull.saturating_add(push);
    if blend.is_nonzero() {
        rescale(blend, e.max_speed)
    } else {
        assert(0 <= e.max_speed * e.max_speed) by (nonlinear_arith);
        Vec2::zero()
    }
}

/// Gives every enemy its velocity for this tick: toward the player, and
/// away from the second-nearest point of the index where that point is
/// within the separation radius. The index holds the enemies' positions as
/// of its last rebuild, so the nearest point is taken to be the enemy
/// itself. No enemy is faster than its speed.
pub fn move_enemy(enemies: &mut Vec<Enemy>, player: Vec2, index: &SpatialIndex)
    ensures
        final(enemies)@.len() == old(enemies)@.len(),
        forall|j: int|
            0 <= j < old(enemies)@.len() ==> #[trigger] steered(
                old(enemies)@[j],
                final(enemies)@[j],
                player,
                index.points@,
            ),
        forall|j: int|
            0 <= j < final(enemies)@.len() ==> norm_sq((#[trigger] final(enemies)@[j]).velocity)
                <= final(enemies)@[j].max_speed * final(enemies)@[j].max_speed,
{
    let ghost all = enemies@;
    let mut i: usize = 0;
    while i < enemies.len()
        invariant
            i <= all.len(),
            enemies@.len() == all.len(),
            forall|j: int| i <= j < all.len() ==> #[trigger] enemies@[j] == all[j],
            forall|j: int|
                0 <= j < i ==> #[trigger] steered(all[j], enemies@[j], player, index.points@),
            forall|j: int|
                0 <= j < i ==> norm_sq((#[trigger] enemies@[j]).velocity) <= enemies@[j].max_speed
                    * enemies@[j].max_speed,
        decreases all.len() - i,
    {
        let e: Enemy = enemies[i];
        let nearest: Vec<usize> = index.k_nearest_neighbour(e.position, 2);
        let neighbour: Option<Vec2> = if nearest.len() >= 2 {
            Some(index.points[nearest[1]])
        } else {
            None
        };
        assert(neighbour == second_of(index.points@, nearest@));
        let velocity: Vec2 = steer(&e, player, neighbour);
        let ghost before = enemies@;
        enemies.set(i, Enemy { velocity, ..e });
        proof {
            assert forall|j: int| 0 <= j < i + 1 implies #[trigger] steered(
                all[j],
                enemies@[j],
                player,
                index.points@,
            ) by {
                if j < i {
                    assert(enemies@[j] == before[j]);
                    assert(steered(all[j], before[j], player, index.points@));
                } else {
                    assert(second_of(index.points@, nearest@) == neighbour);
                }
            }
            assert forall|j: int| 0 <= j < i + 1 implies norm_sq((#[trigger] enemies@[j]).velocity)
                <= enemies@[j].max_speed * enemies@[j].max_speed by {
                if j < i {
                    assert(enemies@[j] == before[j]);
                }
            }
        }
        i = i + 1;
    }
}

/// Whether the enemy is so far from the player that it is removed.
pub open spec fn too_far(e: Enemy, player: Vec2) -> bool {
    dist_sq(e.position, player) > CULL_DISTANCE * CULL_DISTANCE
}

/// Whether the enemy stays in the level: it is neither destroyed nor too far
/// from the player.
pub open spec fn stays(e: Enemy, player: Vec2) -> bool {
    !e.health.dead() && !too_far(e, player)
}

/// Removes the enemies that are destroyed, each of which leaves a fuel
/// pellet where it was, and the enemies that are too far from the player.
/// An enemy is destroyed as soon as its health is below its maximum. The
/// enemies that stay keep their order; the events come in the order of the
/// enemies that they stand for.
pub fn despawn(enemies: &mut Vec<Enemy>, player: Vec2) -> (events: Vec<SpawnFuelPelletEvent>)
    ensures
        final(enemies)@ == old(enemies)@.filter(|e: Enemy| stays(e, player)),
        events@ == old(enemies)@.filter(|e: Enemy| e.health.dead()).map_values(
            |e: Enemy| SpawnFuelPelletEvent { location: e.position },
        ),
{
    let ghost all = enemies@;
    let ghost alive = |e: Enemy| stays(e, player);
    let ghost destroyed = |e: Enemy| e.health.dead();
    let ghost drop = |e: Enemy| SpawnFuelPelletEvent { location: e.position };
    let limit: u128 = (CULL_DISTANCE as u128) * (CULL_DISTANCE as u128);
    let mut kept: Vec<Enemy> = Vec::new();
    let mut events: Vec<SpawnFuelPelletEvent> = Vec::new();
    let mut i: usize = 0;
    assert(all.take(0) =~= Seq::<Enemy>::empty());
    assert(events@ =~= all.take(0).filter(destroyed).map_values(drop));
    while i < enemies.len()
        invariant
            i <= all.len(),
            enemies@ == all,
            limit == CULL_DISTANCE * CULL_DISTANCE,
            alive == (|e: Enemy| stays(e, player)),
            destroyed == (|e: Enemy| e.health.dead()),
            drop == (|e: Enemy| SpawnFuelPelletEvent { location: e.position }),
            kept@ == all.take(i as int).filter(alive),
            events@ == all.take(i as int).filter(destroyed).map_values(drop),
        decreases all.len() - i,
    {
        let e: Enemy = enemies[i];
        proof {
            all.lemma_take_succ_push(i as int);
            all.take(i as int).lemma_filter_push(e, alive);
            all.take(i as int).lemma_filter_push(e, destroyed);
        }
        if e.health.is_dead() {
            events.push(SpawnFuelPelletEvent { location: e.position });
            assert(events@ =~= all.take(i + 1).filter(destroyed).map_values(drop));
        } else if distance_squared(e.position, player) > limit {
        } else {
            kept.push(e);
        }
        i = i + 1;
    }
    assert(all.take(all.len() as int) =~= all);
    *enemies = kept;
    events
}

/// Each firing of the ramp timer shortens a spawn period that is above the
/// floor, never takes it below the floor, and leaves a period at the floor
/// where it is.
pub proof fn lemma_ramp_decreases(period: u64)
    requires
        period >= SPAWN_PERIOD_FLOOR,
    ensures
        ramped(period) >= SPAWN_PERIOD_FLOOR,
        period > SPAWN_PERIOD_FLOOR ==> ramped(period) < period,
        period == SPAWN_PERIOD_FLOOR ==> ramped(period) == period,
{
}

/// The spawn period after `n` firings of the ramp timer.
pub open spec fn ramped_times(period: u64, n: nat) -> u64
    decreases n,
{
    if n == 0 { period } else { ramped(ramped_times(period, (n - 1) as nat)) }
}

/// Over any number of firings the spawn period never rises and never goes
/// below the floor.
pub proof fn lemma_ramp_monotone(period: u64, n: nat)
    requires
        period >= SPAWN_PERIOD_FLOOR,
    ensures
        SPAWN_PERIOD_FLOOR <= ramped_times(period, n) <= period,
        n > 0 && period > SPAWN_PERIOD_FLOOR ==> ramped_times(period, n) < period,
    decreases n,
{
    if n > 0 {
        lemma_ramp_monotone(period, (n - 1) as nat);
        lemma_ramp_decreases(ramped_times(period, (n - 1) as nat));
    }
}

} // verus!
