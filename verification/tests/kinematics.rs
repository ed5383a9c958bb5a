use warp_sim::geometry::Vec2;
use warp_sim::kinematics::{
    acceleration, apply_acceleration, move_camera, movement, player_input, rotation, thruster,
    warp_movement, InputSnapshot, Motion, ThrusterStatus,
};

fn v(x: i32, y: i32) -> Vec2 {
    Vec2 { x, y }
}

fn input(turn_left: bool, turn_right: bool, thrust_forward: bool, thrust_reverse: bool) -> InputSnapshot {
    InputSnapshot { turn_left, turn_right, thrust_forward, thrust_reverse }
}

#[test]
fn input_gives_turn_and_thruster() {
    assert_eq!(player_input(&input(false, false, false, false)), (0, ThrusterStatus::Idle));
    assert_eq!(player_input(&input(true, false, true, false)), (1, ThrusterStatus::Forward));
    assert_eq!(player_input(&input(false, true, false, true)), (-1, ThrusterStatus::Reverse));
    assert_eq!(player_input(&input(true, true, true, true)), (0, ThrusterStatus::Idle));
}

#[test]
fn acceleration_follows_the_heading() {
    assert_eq!(acceleration(ThrusterStatus::Forward, v(1000, 0), 100_000), v(100_000, 0));
    assert_eq!(acceleration(ThrusterStatus::Reverse, v(600, -800), 100_000), v(-60_000, 80_000));
    assert_eq!(acceleration(ThrusterStatus::Idle, v(600, -800), 100_000), v(0, 0));
    assert_eq!(acceleration(ThrusterStatus::Forward, v(707, 707), 1), v(0, 0));
    assert_eq!(acceleration(ThrusterStatus::Forward, v(707, 707), 3), v(2, 2));
}

#[test]
fn velocity_is_integrated() {
    assert_eq!(apply_acceleration(v(10, -10), v(100_000, 50_000), 16, None), v(1610, 790));
    assert_eq!(apply_acceleration(v(0, 0), v(-1, 1), 999, None), v(0, 0));
    assert_eq!(apply_acceleration(v(0, 0), v(-1, 1), 1000, None), v(-1, 1));
    assert_eq!(apply_acceleration(v(5, 5), v(1000, 1000), 0, Some(100)), v(5, 5));
}

#[test]
fn velocity_never_exceeds_the_speed_limit() {
    assert_eq!(apply_acceleration(v(0, 0), v(100_000, 0), 2000, Some(100_000)), v(100_000, 0));
    assert_eq!(apply_acceleration(v(300_000, 0), v(0, 400_000), 1000, Some(100_000)), v(60_000, 80_000));
    let limits: [u32; 4] = [0, 1, 99_999, 100_000];
    let starts = [v(0, 0), v(70_000, 70_000), v(-99_999, 3), v(i32::MAX, i32::MIN)];
    let pushes = [v(0, 0), v(100_000, -100_000), v(-7, 13), v(i32::MIN, i32::MAX)];
    let steps: [u64; 4] = [0, 16, 1000, u64::MAX];
    for limit in limits {
        for start in starts {
            for push in pushes {
                for step in steps {
                    let r = apply_acceleration(start, push, step, Some(limit));
                    let n: i128 = (r.x as i128) * (r.x as i128) + (r.y as i128) * (r.y as i128);
                    assert!(n <= (limit as i128) * (limit as i128));
                }
            }
        }
    }
}

#[test]
fn position_is_integrated() {
    assert_eq!(movement(v(0, 0), v(100_000, -50_000), 16), v(1600, -800));
    assert_eq!(movement(v(i32::MAX, 0), v(1000, 0), 1000), v(i32::MAX, 0));
    assert_eq!(movement(v(7, 7), v(-999, 999), 1), v(7, 7));
}

#[test]
fn warping_slows_the_world() {
    assert_eq!(warp_movement(v(0, 0), v(100_000, -50_000), 16), v(228, -114));
    assert_eq!(warp_movement(v(0, 0), v(7000, 0), 1000), v(1000, 0));
}

#[test]
fn orientation_is_integrated() {
    assert_eq!(rotation(1571, 1, 16, 2000), 1603);
    assert_eq!(rotation(1571, -1, 16, 2000), 1539);
    assert_eq!(rotation(1571, 0, 16, 2000), 1571);
    assert_eq!(rotation(0, -1, 1, 999), 0);
    assert_eq!(rotation(i64::MAX, 1, 1000, 2000), i64::MAX);
}

#[test]
fn flame_shows_only_forward() {
    assert!(thruster(ThrusterStatus::Forward));
    assert!(!thruster(ThrusterStatus::Reverse));
    assert!(!thruster(ThrusterStatus::Idle));
}

#[test]
fn camera_follows_the_player() {
    let mut camera = v(1, 2);
    move_camera(&mut camera, v(-30, 40));
    assert_eq!(camera, v(-30, 40));
}

#[test]
fn one_step_of_the_integrator() {
    let mut m = Motion {
        acceleration: v(0, 0),
        velocity: v(99_000, 0),
        angular_velocity: 1,
        rotation: 0,
        rotation_speed: 2000,
        thrust: 100_000,
        thruster: ThrusterStatus::Forward,
        max_speed: Some(100_000),
    };
    let position = m.integrate(v(0, 0), v(1000, 0), 100);
    assert_eq!(m.acceleration, v(100_000, 0));
    assert_eq!(m.velocity, v(100_000, 0));
    assert_eq!(m.rotation, 200);
    assert_eq!(position, v(10_000, 0));
    m.thruster = ThrusterStatus::Reverse;
    let position = m.integrate(position, v(1000, 0), 100);
    assert_eq!(m.acceleration, v(-100_000, 0));
    assert_eq!(m.velocity, v(90_000, 0));
    assert_eq!(position, v(19_000, 0));
}
