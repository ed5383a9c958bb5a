use warp_sim::basic_laser::{collide, despawn, stretch, BasicLaser, Bullet};
use warp_sim::components::Health;
use warp_sim::enemy::Enemy;
use warp_sim::geometry::Vec2;
use warp_sim::timer::{Timer, TimerMode};

fn v(x: i32, y: i32) -> Vec2 {
    Vec2 { x, y }
}

fn enemy_at(x: i32, y: i32) -> Enemy {
    Enemy { position: v(x, y), velocity: v(0, 0), max_speed: 30_000, health: Health::full(1000) }
}

fn bullet_at(x: i32, y: i32, piercing: bool) -> Bullet {
    Bullet { position: v(x, y), velocity: v(0, 0), origin: v(x, y), range: 200_000, damage: 1000, piercing }
}

#[test]
fn laser_fires_when_its_timer_does() {
    let mut gun = BasicLaser { timer: Timer::new(1000, TimerMode::Repeating), damage: 1000 };
    assert_eq!(gun.fire(999, v(0, 0), v(1000, 0)), None);
    let bullet = gun.fire(1, v(10_000, -5_000), v(0, 1000)).unwrap();
    assert_eq!(bullet.position, v(10_000, 20_000));
    assert_eq!(bullet.origin, v(10_000, 20_000));
    assert_eq!(bullet.velocity, v(0, 100_000));
    assert_eq!(bullet.range, 200_000);
    assert_eq!(bullet.damage, 1000);
    assert!(!bullet.piercing);
    assert_eq!(gun.fire(500, v(0, 0), v(1000, 0)), None);
}

#[test]
fn stretch_multiplies_and_saturates() {
    assert_eq!(stretch(v(600, -800), 25), v(15_000, -20_000));
    assert_eq!(stretch(v(i32::MAX, i32::MIN), 2), v(i32::MAX, i32::MIN));
}

#[test]
fn plain_bullet_hits_one_enemy_and_is_removed() {
    let mut bullets = vec![bullet_at(0, 0, false)];
    let mut enemies = vec![enemy_at(50_000, 0), enemy_at(3000, 0), enemy_at(0, 4000)];
    collide(&mut bullets, &mut enemies);
    assert!(bullets.is_empty());
    assert_eq!(enemies[0].health.current, 1000);
    assert_eq!(enemies[1].health.current, 0);
    assert_eq!(enemies[2].health.current, 1000);
    assert!(enemies[1].health.is_dead());
    assert!(!enemies[2].health.is_dead());
}

#[test]
fn piercing_bullet_hits_all_and_stays() {
    let mut bullets = vec![bullet_at(0, 0, true)];
    let mut enemies = vec![enemy_at(50_000, 0), enemy_at(3000, 0), enemy_at(0, 4000)];
    collide(&mut bullets, &mut enemies);
    assert_eq!(bullets, vec![bullet_at(0, 0, true)]);
    assert_eq!(enemies[0].health.current, 1000);
    assert_eq!(enemies[1].health.current, 0);
    assert_eq!(enemies[2].health.current, 0);
}

#[test]
fn hit_radius_is_exclusive() {
    let mut bullets = vec![bullet_at(0, 0, false)];
    let mut enemies = vec![enemy_at(10_000, 0), enemy_at(6000, 8000)];
    collide(&mut bullets, &mut enemies);
    assert_eq!(bullets.len(), 1);
    assert_eq!(enemies[0].health.current, 1000);
    assert_eq!(enemies[1].health.current, 1000);
    let mut enemies = vec![enemy_at(9999, 0)];
    collide(&mut bullets, &mut enemies);
    assert!(bullets.is_empty());
    assert_eq!(enemies[0].health.current, 0);
}

#[test]
fn several_bullets_add_their_damage() {
    let mut bullets = vec![
        bullet_at(0, 0, false),
        bullet_at(100_000, 0, false),
        bullet_at(1, 0, true),
        bullet_at(0, 1, false),
    ];
    let mut enemies = vec![enemy_at(0, 0)];
    collide(&mut bullets, &mut enemies);
    assert_eq!(bullets, vec![bullet_at(100_000, 0, false), bullet_at(1, 0, true)]);
    assert_eq!(enemies[0].health.current, -2000);
    assert_eq!(enemies[0].health.max, 1000);
}

#[test]
fn damage_has_no_floor_but_the_machine_limit() {
    let mut h = Health { current: i64::MIN + 5, max: 10 };
    h.apply_damage(3);
    assert_eq!(h.current, i64::MIN + 2);
    h.apply_damage(3);
    assert_eq!(h.current, i64::MIN);
}

#[test]
fn bullet_beyond_its_range_is_removed() {
    let mut inside = bullet_at(0, 0, false);
    inside.position = v(200_000, 0);
    let mut outside = bullet_at(0, 0, false);
    outside.position = v(200_000, 1);
    let mut piercing = bullet_at(5, 5, true);
    piercing.position = v(5, -199_996);
    let mut bullets = vec![outside, inside, piercing];
    despawn(&mut bullets);
    assert_eq!(bullets, vec![inside]);
}

#[test]
fn range_ends_a_bullet_whatever_it_hit() {
    let mut far = bullet_at(0, 0, true);
    far.position = v(0, 250_000);
    let mut bullets = vec![far];
    let mut enemies = vec![enemy_at(0, 250_000)];
    collide(&mut bullets, &mut enemies);
    assert_eq!(bullets.len(), 1);
    assert_eq!(enemies[0].health.current, 0);
    despawn(&mut bullets);
    assert!(bullets.is_empty());
}
