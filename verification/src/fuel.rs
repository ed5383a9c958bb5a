//! Fuel pellets: what a destroyed enemy leaves behind, how the pellets are
//! drawn to the player, and how they fill the tank.

use vstd::prelude::*;
use crate::components::FuelTank;
use crate::geometry::{dist_sq, distance_squared, nonzero, rescale, rescale_spec, sub_sat, Vec2};

verus! {

/// A pellet nearer than this to the player flies toward the player.
pub const ATTRACT_RADIUS: u64 = 60_000;

/// A pellet nearer than this to the player is collected.
pub const COLLECT_RADIUS: u64 = 10_000;

/// The speed at which a pellet flies toward the player.
pub const PELLET_SPEED: u32 = 100_000;

/// The highest speed that a pellet is given.
pub const PELLET_MAX_SPEED: u32 = 300_000;

/// A request to put a fuel pellet into the level.
#[derive(Clone, Copy, Debug, PartialEq, Eq, Structural)]
pub struct SpawnFuelPelletEvent {
    pub location: Vec2,
}

/// A fuel pellet.
#[derive(Clone, Copy, Debug, PartialEq, Eq, Structural)]
pub struct FuelPellet {
    pub position: Vec2,
    pub velocity: Vec2,
    pub max_speed: u32,
}

/// The pellet that an event asks for: at rest at the event's location.
pub open spec fn pellet_at(location: Vec2) -> FuelPellet {
    FuelPellet { position: location, velocity: Vec2 { x: 0, y: 0 }, max_speed: PELLET_MAX_SPEED }
}

/// Whether the pellet is near enough to the player to be collected.
pub open spec fn collected(p: FuelPellet, player: Vec2) -> bool {
    dist_sq(player, p.position) <= COLLECT_RADIUS * COLLECT_RADIUS
}

/// The pellet with the velocity that the player's place gives it: toward
/// the player where the player is near but not at the pellet's own place,
/// else none.
pub open spec fn attracted(p: FuelPellet, player: Vec2) -> FuelPellet {
    let diff = sub_sat(player, p.position);
    FuelPellet {
        velocity: if dist_sq(player, p.position) <= ATTRACT_RADIUS * ATTRACT_RADIUS && nonzero(diff) {
            rescale_spec(diff, PELLET_SPEED)
        } else {
            Vec2 { x: 0, y: 0 }
        },
        ..p
    }
}

/// What the tank holds after `count` pellets: none beyond its capacity.
pub open spec fn refuelled(tank: FuelTank, count: int) -> FuelTank {
    FuelTank {
        current: if tank.current + count >= tank.max { tank.max } else { (tank.current + count) as u32 },
        max: tank.max,
    }
}

/// Puts a pellet into the level for each event, in the events' order.
pub fn spawn(events: &Vec<SpawnFuelPelletEvent>, pellets: &mut Vec<FuelPellet>)
    ensures
        final(pellets)@ == old(pellets)@ + events@.map_values(
            |e: SpawnFuelPelletEvent| pellet_at(e.location),
        ),
{
    let ghost before = pellets@;
    let ghost make = |e: SpawnFuelPelletEvent| pellet_at(e.location);
    let mut i: usize = 0;
    assert(pellets@ =~= before + events@.take(0).map_values(make));
    while i < events.len()
        invariant
            i <= events@.len(),
            make == (|e: SpawnFuelPelletEvent| pellet_at(e.location)),
            pellets@ == before + events@.take(i as int).map_values(make),
        decreases events@.len() - i,
    {
        pellets.push(
            FuelPellet {
                position: events[i].location,
                velocity: Vec2::zero(),
                max_speed: PELLET_MAX_SPEED,
            },
        );
        proof {
            events@.lemma_take_succ_push(i as int);
            assert(pellets@ =~= before + events@.take(i + 1).map_values(make));
        }
        i = i + 1;
    }
    assert(events@.take(events@.len() as int) =~= events@);
}

/// Steers the pellets and collects those that have reached the player. A
/// pellet within the attraction radius flies toward the player; any other
/// stands still. A pellet within the collection radius adds one to the tank,
/// up to its capacity, and is removed. The others keep their order.
pub fn movement(pellets: &mut Vec<FuelPellet>, player: Vec2, tank: &mut FuelTank)
    requires
        old(tank).wf(),
    ensures
        final(pellets)@ == old(pellets)@.filter(|p: FuelPellet| !collected(p, player)).map_values(
            |p: FuelPellet| attracted(p, player),
        ),
        *final(tank) == refuelled(
            *old(tank),
            old(pellets)@.filter(|p: FuelPellet| collected(p, player)).len() as int,
        ),
        final(tank).wf(),
{
    let ghost all = pellets@;
    let ghost start = *tank;
    let ghost taken = |p: FuelPellet| collected(p, player);
    let ghost left = |p: FuelPellet| !collected(p, player);
    let ghost steer = |p: FuelPellet| attracted(p, player);
    let attract: u128 = (ATTRACT_RADIUS as u128) * (ATTRACT_RADIUS as u128);
    let collect: u128 = (COLLECT_RADIUS as u128) * (COLLECT_RADIUS as u128);
    let mut kept: Vec<FuelPellet> = Vec::new();
    let mut i: usize = 0;
    assert(all.take(0) =~= Seq::<FuelPellet>::empty());
    assert(kept@ =~= all.take(0).filter(left).map_values(steer));
    while i < pellets.len()
        invariant
            i <= all.len(),
            pellets@ == all,
            attract == ATTRACT_RADIUS * ATTRACT_RADIUS,
            collect == COLLECT_RADIUS * COLLECT_RADIUS,
            taken == (|p: FuelPellet| collected(p, player)),
            left == (|p: FuelPellet| !collected(p, player)),
            steer == (|p: FuelPellet| attracted(p, player)),
            start.wf(),
            kept@ == all.take(i as int).filter(left).map_values(steer),
            *tank == refuelled(start, all.take(i as int).filter(taken).len() as int),
        decreases all.len() - i,
    {
        let p: FuelPellet = pellets[i];
        let d: u128 = distance_squared(player, p.position);
        let diff: Vec2 = player.saturating_sub(p.position);
        let velocity: Vec2 = if d <= attract && diff.is_nonzero() {
            rescale(diff, PELLET_SPEED)
        } else {
            Vec2::zero()
        };
        proof {
            all.lemma_take_succ_push(i as int);
            all.take(i as int).lemma_filter_push(p, taken);
            all.take(i as int).lemma_filter_push(p, left);
        }
        if d <= collect {
            tank.add_one();
        } else {
            kept.push(FuelPellet { velocity, ..p });
            assert(kept@ =~= all.take(i + 1).filter(left).map_values(steer));
        }
        i = i + 1;
    }
    assert(all.take(all.len() as int) =~= all);
    *pellets = kept;
}

} // verus!
