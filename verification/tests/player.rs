use warp_sim::basic_laser::Bullet;
use warp_sim::commodity::{Commodity, CommodityKind, CommodityPrices};
use warp_sim::components::{FuelTank, Health};
use warp_sim::enemy::{Enemy, SpawnController};
use warp_sim::fuel::FuelPellet;
use warp_sim::geometry::Vec2;
use warp_sim::kinematics::ThrusterStatus;
use warp_sim::player::{cleanup, complete_travel, reset_player, Level, Player};
use warp_sim::scanner::Scanner;
use warp_sim::warp_node::{GameState, Travel, WarpNode};

fn v(x: i32, y: i32) -> Vec2 {
    Vec2 { x, y }
}

fn busy_level() -> Level {
    let mut level = Level::new();
    level.enemies.push(Enemy {
        position: v(1, 1),
        velocity: v(0, 0),
        max_speed: 30_000,
        health: Health::full(1000),
    });
    level.bullets.push(Bullet {
        position: v(0, 0),
        velocity: v(0, 0),
        origin: v(0, 0),
        range: 200_000,
        damage: 1000,
        piercing: false,
    });
    level.pellets.push(FuelPellet { position: v(0, 0), velocity: v(0, 0), max_speed: 300_000 });
    level.commodities.push(Commodity { id: 1, position: v(5, 5), kind: CommodityKind::Food, amount: 20 });
    level.nodes.push(WarpNode { id: 2, position: v(9, 9), prices: CommodityPrices::new() });
    level
}

#[test]
fn new_player_starts_at_rest() {
    let p = Player::new();
    assert_eq!(p.position, v(0, 0));
    assert_eq!(p.motion.velocity, v(0, 0));
    assert_eq!(p.motion.rotation, 1571);
    assert_eq!(p.motion.rotation_speed, 2000);
    assert_eq!(p.motion.thrust, 100_000);
    assert_eq!(p.motion.thruster, ThrusterStatus::Idle);
    assert_eq!(p.motion.max_speed, Some(100_000));
    assert_eq!(p.fuel, FuelTank { current: 0, max: 40 });
    assert_eq!(p.credits, 0);
    assert_eq!(p.laser.damage, 1000);
    assert_eq!(p.laser.timer.duration(), 1000);
    assert_eq!(p.inventory.quantity(CommodityKind::Water), 0);
}

#[test]
fn validity_of_the_parts() {
    let mut p = Player::new();
    assert!(p.is_valid());
    p.fuel.current = 41;
    assert!(!p.is_valid());
    assert!(!p.fuel.is_valid());
    let mut c = SpawnController::new();
    assert!(c.is_valid());
    c.ramp_timer.duration = 0;
    assert!(!c.is_valid());
    let mut s = Scanner::new();
    assert!(s.is_valid());
    assert!(s.timer.is_valid());
    s.timer.duration = 0;
    assert!(!s.is_valid());
}

#[test]
fn reset_puts_the_ship_back() {
    let mut p = Player::new();
    p.position = v(500, -500);
    p.motion.velocity = v(10, 10);
    p.motion.angular_velocity = -1;
    p.motion.rotation = 77;
    p.fuel.current = 40;
    p.credits = 9;
    p.inventory.add(CommodityKind::Water, 3);
    reset_player(&mut p);
    assert_eq!(p.position, v(0, 0));
    assert_eq!(p.motion.velocity, v(0, 0));
    assert_eq!(p.motion.angular_velocity, 0);
    assert_eq!(p.motion.rotation, 77);
    assert_eq!(p.fuel, FuelTank { current: 0, max: 40 });
    assert_eq!(p.credits, 9);
    assert_eq!(p.inventory.quantity(CommodityKind::Water), 3);
}

#[test]
fn cleanup_empties_the_level() {
    let mut level = busy_level();
    assert_eq!(level.live_enemies(), 1);
    cleanup(&mut level);
    assert!(level.enemies.is_empty());
    assert!(level.bullets.is_empty());
    assert!(level.pellets.is_empty());
    assert!(level.commodities.is_empty());
    assert!(level.nodes.is_empty());
    assert!(level.indicators.is_empty());
}

#[test]
fn arrival_settles_and_resets() {
    let mut travel = Travel::new();
    let mut prices = CommodityPrices::new();
    prices.set(CommodityKind::Water, 12);
    let nodes = vec![WarpNode { id: 2, position: v(10, 10), prices }];
    let mut player = Player::new();
    player.fuel.current = 40;
    player.position = v(20, 20);
    player.motion.velocity = v(3, 3);
    player.inventory.add(CommodityKind::Water, 10);
    assert_eq!(travel.start_warp(&player.fuel, player.position, &nodes), Some(0));
    let mut arrived = false;
    while !arrived {
        arrived = travel.tick(100).arrived;
    }
    let mut level = busy_level();
    let mut spawner = SpawnController::new();
    spawner.ramp_up(30_000);
    let mut scanner = Scanner::new();
    scanner.warp_nodes = vec![2];
    scanner.timer.pause();
    complete_travel(&mut travel, &mut player, &mut level, &mut spawner, &mut scanner);
    assert_eq!(player.credits, 12);
    assert_eq!(player.inventory.quantity(CommodityKind::Water), 0);
    assert_eq!(player.position, v(0, 0));
    assert_eq!(player.motion.velocity, v(0, 0));
    assert_eq!(player.fuel, FuelTank { current: 0, max: 40 });
    assert!(level.enemies.is_empty() && level.nodes.is_empty() && level.commodities.is_empty());
    assert_eq!(spawner.spawn_timer.duration(), 2000);
    assert_eq!(spawner.ramp_timer.elapsed(), 0);
    assert!(scanner.warp_nodes.is_empty());
    assert!(!scanner.timer.paused());
    assert!(travel.warped_to.is_none());
    assert_eq!(travel.state, GameState::Exploring);
}

#[test]
fn arrival_without_a_destination_keeps_the_hold() {
    let mut travel = Travel::new();
    let mut player = Player::new();
    player.inventory.add(CommodityKind::Goods, 44);
    player.credits = 5;
    let mut level = busy_level();
    let mut spawner = SpawnController::new();
    let mut scanner = Scanner::new();
    complete_travel(&mut travel, &mut player, &mut level, &mut spawner, &mut scanner);
    assert_eq!(player.credits, 5);
    assert_eq!(player.inventory.quantity(CommodityKind::Goods), 44);
    assert!(level.enemies.is_empty());
}
