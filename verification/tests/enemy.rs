use warp_sim::components::Health;
use warp_sim::enemy::{
    despawn, direction_to, move_enemy, steer, Enemy, SpawnController, ENEMY_HEALTH, ENEMY_SPEED,
    MAX_ENEMIES, SPAWN_PERIOD, SPAWN_PERIOD_FLOOR,
};
use warp_sim::fuel::SpawnFuelPelletEvent;
use warp_sim::geometry::Vec2;
use warp_sim::spatial::SpatialIndex;

fn v(x: i32, y: i32) -> Vec2 {
    Vec2 { x, y }
}

fn enemy_at(x: i32, y: i32) -> Enemy {
    Enemy {
        position: v(x, y),
        velocity: v(0, 0),
        max_speed: ENEMY_SPEED,
        health: Health::full(ENEMY_HEALTH),
    }
}

#[test]
fn spawn_waits_for_the_timer() {
    let mut c = SpawnController::new();
    assert_eq!(c.spawn_enemy(1999, 0, v(1, 0), v(0, 0)), None);
    let spawned = c.spawn_enemy(1, 0, v(1, 0), v(0, 0));
    assert_eq!(spawned, Some(enemy_at(700_000, 0)));
}

#[test]
fn spawn_is_refused_at_the_cap() {
    let mut c = SpawnController::new();
    assert_eq!(c.spawn_enemy(SPAWN_PERIOD, MAX_ENEMIES, v(1, 0), v(0, 0)), None);
    assert!(c.spawn_timer.just_finished());
    assert_eq!(c.spawn_enemy(SPAWN_PERIOD, MAX_ENEMIES + 1, v(1, 0), v(0, 0)), None);
    assert!(c.spawn_enemy(SPAWN_PERIOD, MAX_ENEMIES - 1, v(1, 0), v(0, 0)).is_some());
}

#[test]
fn spawn_is_not_queued() {
    let mut c = SpawnController::new();
    assert_eq!(c.spawn_enemy(SPAWN_PERIOD, MAX_ENEMIES, v(1, 0), v(0, 0)), None);
    assert_eq!(c.spawn_enemy(1, 0, v(1, 0), v(0, 0)), None);
}

#[test]
fn spawn_position_follows_the_player() {
    let mut c = SpawnController::new();
    let e = c.spawn_enemy(SPAWN_PERIOD, 3, v(-3, 1), v(1000, -2000)).unwrap();
    assert_eq!(e.position, v(-699_000, 231_333));
    assert_eq!(e.velocity, v(0, 0));
    assert_eq!(e.max_speed, 30_000);
    assert_eq!(e.health, Health { current: 1000, max: 1000 });
    let e = c.spawn_enemy(SPAWN_PERIOD, 3, v(0, 5), v(0, 0)).unwrap();
    assert_eq!(e.position, v(0, 410_000));
}

#[test]
fn ramp_halves_the_period_down_to_the_floor() {
    let mut c = SpawnController::new();
    assert_eq!(c.spawn_timer.duration(), 2000);
    assert!(!c.ramp_up(29_999));
    assert_eq!(c.spawn_timer.duration(), 2000);
    assert!(c.ramp_up(1));
    assert_eq!(c.spawn_timer.duration(), 1000);
    assert!(c.ramp_up(30_000));
    assert_eq!(c.spawn_timer.duration(), 500);
    assert!(c.ramp_up(30_000));
    assert_eq!(c.spawn_timer.duration(), SPAWN_PERIOD_FLOOR);
}

#[test]
fn ramp_strictly_decreases_above_the_floor() {
    let mut c = SpawnController::new();
    c.spawn_timer.set_duration(1_000_000);
    let mut last: u64 = c.spawn_timer.duration();
    while last > SPAWN_PERIOD_FLOOR {
        assert!(c.ramp_up(30_000));
        let now: u64 = c.spawn_timer.duration();
        assert!(now < last);
        assert!(now >= SPAWN_PERIOD_FLOOR);
        last = now;
    }
    assert_eq!(last, SPAWN_PERIOD_FLOOR);
}

#[test]
fn reset_restores_the_initial_period() {
    let mut c = SpawnController::new();
    c.ramp_up(30_000);
    c.ramp_up(12_000);
    c.spawn_enemy(300, 0, v(1, 0), v(0, 0));
    c.reset_timers();
    assert_eq!(c.spawn_timer, SpawnController::new().spawn_timer);
    assert_eq!(c.ramp_timer.elapsed(), 0);
    assert!(!c.ramp_timer.just_finished());
    assert_eq!(c.max_enemies, MAX_ENEMIES);
}

#[test]
fn damaged_enemy_leaves_a_pellet() {
    let mut hurt = enemy_at(5, 6);
    hurt.health.apply_damage(1);
    let mut enemies = vec![enemy_at(1, 1), hurt, enemy_at(2, 2)];
    let events = despawn(&mut enemies, v(0, 0));
    assert_eq!(events, vec![SpawnFuelPelletEvent { location: v(5, 6) }]);
    assert_eq!(enemies, vec![enemy_at(1, 1), enemy_at(2, 2)]);
}

#[test]
fn distant_enemy_is_culled_without_a_pellet() {
    let mut enemies = vec![enemy_at(700_000, 0), enemy_at(700_001, 0), enemy_at(0, -700_001)];
    let events = despawn(&mut enemies, v(0, 0));
    assert!(events.is_empty());
    assert_eq!(enemies, vec![enemy_at(700_000, 0)]);
}

#[test]
fn distant_damaged_enemy_still_leaves_a_pellet() {
    let mut hurt = enemy_at(900_000, 0);
    hurt.health.apply_damage(1000);
    let mut enemies = vec![hurt];
    let events = despawn(&mut enemies, v(0, 0));
    assert_eq!(events, vec![SpawnFuelPelletEvent { location: v(900_000, 0) }]);
    assert!(enemies.is_empty());
}

#[test]
fn direction_has_unit_length_in_thousandths() {
    assert_eq!(direction_to(v(0, 0), v(3000, 4000)), v(600, 800));
    assert_eq!(direction_to(v(10, 10), v(10, 10)), v(0, 0));
    assert_eq!(direction_to(v(10_000, 0), v(0, 100_000)), v(-99, 995));
}

#[test]
fn steering_heads_for_the_player() {
    let e = enemy_at(0, 0);
    assert_eq!(steer(&e, v(3000, 4000), None), v(18_000, 24_000));
    assert_eq!(steer(&e, v(0, 0), None), v(0, 0));
}

#[test]
fn steering_avoids_a_near_neighbour() {
    let e = enemy_at(0, 0);
    assert_eq!(steer(&e, v(3000, 4000), Some(v(10_000, 0))), v(-13_407, 26_815));
    assert_eq!(steer(&e, v(0, 100_000), Some(v(40_000, 0))), v(0, 30_000));
    assert_eq!(steer(&e, v(5000, 0), Some(v(5000, 0))), v(0, 0));
}

#[test]
fn enemies_move_apart_and_toward_the_player() {
    let mut enemies = vec![enemy_at(0, 0), enemy_at(10_000, 0)];
    let mut index = SpatialIndex::new();
    index.rebuild(&vec![v(0, 0), v(10_000, 0)]);
    move_enemy(&mut enemies, v(0, 100_000), &index);
    assert_eq!(enemies[0].velocity, v(-21_201, 21_201));
    assert_eq!(enemies[1].velocity, v(20_126, 22_226));
    assert_eq!(enemies[0].position, v(0, 0));
    assert_eq!(enemies[1].position, v(10_000, 0));
    for e in &enemies {
        let n: i64 = (e.velocity.x as i64).pow(2) + (e.velocity.y as i64).pow(2);
        assert!(n <= 900_000_000);
    }
}

#[test]
fn lone_enemy_ignores_the_index() {
    let mut enemies = vec![enemy_at(0, 0)];
    let mut index = SpatialIndex::new();
    index.rebuild(&vec![v(0, 0)]);
    move_enemy(&mut enemies, v(3000, 4000), &index);
    assert_eq!(enemies[0].velocity, v(18_000, 24_000));
    let empty = SpatialIndex::new();
    move_enemy(&mut enemies, v(-3000, -4000), &empty);
    assert_eq!(enemies[0].velocity, v(-18_000, -24_000));
}

#[test]
fn nearest_neighbours_come_in_order() {
    let mut index = SpatialIndex::new();
    index.rebuild(&vec![v(50, 0), v(10, 0), v(0, 30), v(-10, 0), v(0, 0)]);
    assert_eq!(index.k_nearest_neighbour(v(0, 0), 3), vec![4, 1, 3]);
    assert_eq!(index.k_nearest_neighbour(v(0, 0), 0), Vec::<usize>::new());
    assert_eq!(index.k_nearest_neighbour(v(0, 0), 9), vec![4, 1, 3, 2, 0]);
    assert_eq!(index.k_nearest_neighbour(v(40, 0), 2), vec![0, 1]);
}

#[test]
fn rebuild_replaces_the_points() {
    let mut index = SpatialIndex::new();
    index.rebuild(&vec![v(1, 1), v(2, 2)]);
    index.rebuild(&vec![v(9, 9)]);
    assert_eq!(index.points, vec![v(9, 9)]);
    assert_eq!(index.k_nearest_neighbour(v(0, 0), 2), vec![0]);
}
