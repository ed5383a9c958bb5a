//! The player's ship, the content of a level, and what happens to both when
//! a travel cycle completes.

use vstd::prelude::*;
use crate::basic_laser::{BasicLaser, Bullet};
use crate::commodity::{credit_sum, sale_total, sell, Commodity, CommodityInventory, KINDS};
use crate::components::FuelTank;
use crate::direction_indicator::DirectionIndicator;
use crate::enemy::{Enemy, SpawnController};
use crate::fuel::FuelPellet;
use crate::geometry::Vec2;
use crate::kinematics::{Motion, ThrusterStatus};
use crate::scanner::{Scanner, SCAN_PERIOD};
use crate::timer::{fresh, reset_spec, Timer, TimerMode};
use crate::warp_node::{Travel, WarpNode};

verus! {

/// The orientation that the ship starts with: a quarter turn, in
/// thousandths of a radian.
pub const START_ROTATION: i64 = 1571;

/// The rate at which the ship turns, in thousandths of a radian per second.
pub const TURN_RATE: u32 = 2000;

/// The thrust of the ship.
pub const SHIP_THRUST: u32 = 100_000;

/// The highest speed of the ship.
pub const SHIP_MAX_SPEED: u32 = 100_000;

/// The capacity of the ship's tank, in pellets.
pub const TANK_CAPACITY: u32 = 40;

/// The period of the ship's laser, in milliseconds.
pub const LASER_PERIOD: u64 = 1000;

/// The damage of the ship's laser, in thousandths.
pub const LASER_DAMAGE: u32 = 1000;

/// The player's ship.
#[derive(Debug)]
pub struct Player {
    pub position: Vec2,
    pub motion: Motion,
    pub fuel: FuelTank,
    pub credits: u64,
    pub laser: BasicLaser,
    pub inventory: CommodityInventory,
}

/// The content of a level: everything that is removed when a travel cycle
/// completes.
#[derive(Debug)]
pub struct Level {
    pub enemies: Vec<Enemy>,
    pub bullets: Vec<Bullet>,
    pub pellets: Vec<FuelPellet>,
    pub commodities: Vec<Commodity>,
    pub nodes: Vec<WarpNode>,
    pub indicators: Vec<DirectionIndicator>,
}

/// How the ship moves when it is put into the game.
pub open spec fn initial_motion() -> Motion {
    Motion {
        acceleration: Vec2 { x: 0, y: 0 },
        velocity: Vec2 { x: 0, y: 0 },
        angular_velocity: 0,
        rotation: START_ROTATION,
        rotation_speed: TURN_RATE,
        thrust: SHIP_THRUST,
        thruster: ThrusterStatus::Idle,
        max_speed: Some(SHIP_MAX_SPEED),
    }
}

/// The ship's motion after a reset: at rest, not turning.
pub open spec fn stopped(m: Motion) -> Motion {
    Motion { velocity: Vec2 { x: 0, y: 0 }, angular_velocity: 0, ..m }
}

impl Level {
    /// Whether the level holds nothing.
    pub open spec fn is_empty(self) -> bool {
        &&& self.enemies@.len() == 0
        &&& self.bullets@.len() == 0
        &&& self.pellets@.len() == 0
        &&& self.commodities@.len() == 0
        &&& self.nodes@.len() == 0
        &&& self.indicators@.len() == 0
    }

    /// A level that holds nothing.
    pub fn new() -> (level: Level)
        ensures
            level.is_empty(),
    {
        Level {
            enemies: Vec::new(),
            bullets: Vec::new(),
            pellets: Vec::new(),
            commodities: Vec::new(),
            nodes: Vec::new(),
            indicators: Vec::new(),
        }
    }

    /// The number of enemies that are alive.
    pub fn live_enemies(&self) -> (n: usize)
        ensures
            n == self.enemies@.len(),
    {
        self.enemies.len()
    }
}

impl Player {
    /// The player's own parts are valid.
    pub open spec fn wf(self) -> bool {
        &&& self.fuel.wf()
        &&& self.laser.timer.wf()
        &&& self.inventory.wf()
    }

    /// Whether the player's own parts are valid.
    pub fn is_valid(&self) -> (r: bool)
        ensures
            r == self.wf(),
    {
        self.fuel.is_valid() && self.laser.timer.is_valid() && self.inventory.is_valid()
    }

    /// The ship as it is put into the game: at the origin, at rest, with an
    /// empty tank, no credits and nothing in its hold.
    pub fn new() -> (p: Player)
        ensures
            p.wf(),
            p.position == (Vec2 { x: 0, y: 0 }),
            p.motion == initial_motion(),
            p.fuel == (FuelTank { current: 0, max: TANK_CAPACITY }),
            p.credits == 0,
            p.laser == (BasicLaser { timer: fresh(LASER_PERIOD, TimerMode::Repeating), damage: LASER_DAMAGE }),
            p.inventory.is_empty(),
    {
        Player {
            position: Vec2::zero(),
            motion: Motion {
                acceleration: Vec2::zero(),
                velocity: Vec2::zero(),
                angular_velocity: 0,
                rotation: START_ROTATION,
                rotation_speed: TURN_RATE,
                thrust: SHIP_THRUST,
                thruster: ThrusterStatus::Idle,
                max_speed: Some(SHIP_MAX_SPEED),
            },
            fuel: FuelTank::new(TANK_CAPACITY),
            credits: 0,
            laser: BasicLaser { timer: Timer::new(LASER_PERIOD, TimerMode::Repeating), damage: LASER_DAMAGE },
            inventory: CommodityInventory::new(),
        }
    }
}

/// Puts the ship back to the start of a level: to the origin, at rest, not
/// turning, with an empty tank. Its credits and its hold stay.
pub fn reset_player(player: &mut Player)
    ensures
        final(player).position == (Vec2 { x: 0, y: 0 }),
        final(player).motion == stopped(old(player).motion),
        final(player).fuel == (FuelTank { current: 0, max: old(player).fuel.max }),
        final(player).credits == old(player).credits,
        final(player).laser == old(player).laser,
        final(player).inventory == old(player).inventory,
{
    player.position = Vec2::zero();
    player.fuel.drain();
    player.motion.velocity = Vec2::zero();
    player.motion.angular_velocity = 0;
}

/// Removes everything that the level holds.
pub fn cleanup(level: &mut Level)
    ensures
        final(level).is_empty(),
{
    *level = Level::new();
}

/// What arrival does, on the tick on which the dwell ends: the hold is sold
/// at the destination's prices, if a destination was kept; the level is
/// emptied; the ship is put back to the origin with an empty tank; the
/// spawn period and the ramp start afresh; and the scanner forgets what it
/// was looking for.
pub fn complete_travel(
    travel: &mut Travel,
    player: &mut Player,
    level: &mut Level,
    spawner: &mut SpawnController,
    scanner: &mut Scanner,
)
    requires
        old(player).wf(),
        old(spawner).wf(),
    ensures
        final(travel).state == old(travel).state,
        final(travel).animation == old(travel).animation,
        final(travel).warped_to is None,
        final(player).wf(),
        final(player).position == (Vec2 { x: 0, y: 0 }),
        final(player).motion == stopped(old(player).motion),
        final(player).fuel == (FuelTank { current: 0, max: old(player).fuel.max }),
        final(player).laser == old(player).laser,
        match old(travel).warped_to {
            Some(destination) => {
                &&& final(player).credits == credit_sum(
                    old(player).credits as int,
                    sale_total(old(player).inventory.quantities@, destination.0@, KINDS as int),
                )
                &&& final(player).inventory.is_empty()
            },
            None => {
                &&& final(player).credits == old(player).credits
                &&& final(player).inventory == old(player).inventory
            },
        },
        final(level).is_empty(),
        final(spawner).wf(),
        final(spawner).spawn_timer == SpawnController::initial().spawn_timer,
        final(spawner).ramp_timer == reset_spec(old(spawner).ramp_timer),
        final(spawner).max_enemies == old(spawner).max_enemies,
        final(scanner).wf(),
        final(scanner).timer == fresh(SCAN_PERIOD, TimerMode::Repeating),
        final(scanner).commodities@.len() == 0,
        final(scanner).warp_nodes@.len() == 0,
{
    match travel.take_sale() {
        Some(destination) => {
            sell(&mut player.credits, &mut player.inventory, &destination.0);
        },
        None => {},
    }
    cleanup(level);
    reset_player(player);
    spawner.reset_timers();
    scanner.reset();
}

} // verus!
