//! The integrator: from the player's intent to acceleration, velocity,
//! position and orientation, one time step at a time.

use vstd::prelude::*;
use crate::geometry::{
    clamp_i32, clamp_length_max, clamp_length_spec, div_trunc, lemma_clamp_length_bounded, norm_sq,
    scale_spec, scale_wide, Vec2,
};

verus! {

/// By how much the time step is divided while the game is warping.
pub const WARP_SLOWDOWN: u64 = 7;

/// What the thruster does.
#[derive(Clone, Copy, Debug, PartialEq, Eq, Structural)]
pub enum ThrusterStatus {
    Forward,
    Reverse,
    Idle,
}

/// What the player asks for in a frame.
#[derive(Clone, Copy, Debug, PartialEq, Eq, Structural)]
pub struct InputSnapshot {
    pub turn_left: bool,
    pub turn_right: bool,
    pub thrust_forward: bool,
    pub thrust_reverse: bool,
}

/// How an entity moves: lengths in thousandths of a unit, time in seconds,
/// the orientation in thousandths of a radian.
#[derive(Clone, Copy, Debug, PartialEq, Eq, Structural)]
pub struct Motion {
    pub acceleration: Vec2,
    pub velocity: Vec2,
    /// The sense of the turn: 1 to the left, -1 to the right, 0 for none.
    pub angular_velocity: i8,
    pub rotation: i64,
    /// The turn rate, in thousandths of a radian per second.
    pub rotation_speed: u32,
    pub thrust: u32,
    pub thruster: ThrusterStatus,
    pub max_speed: Option<u32>,
}

/// The nearest value to `v` that an `i64` holds.
pub open spec fn clamp_i64(v: int) -> int {
    if v < i64::MIN { i64::MIN as int } else if v > i64::MAX { i64::MAX as int } else { v }
}

/// The sense of the turn that the input asks for.
pub open spec fn turn_of(input: InputSnapshot) -> i8 {
    ((if input.turn_left { 1int } else { 0int }) - (if input.turn_right { 1int } else { 0int })) as i8
}

/// What the input asks of the thruster: forward or reverse where only one
/// of the two is pressed, idle where both are or neither is.
pub open spec fn thruster_of(input: InputSnapshot) -> ThrusterStatus {
    if input.thrust_forward && !input.thrust_reverse {
        ThrusterStatus::Forward
    } else if input.thrust_reverse && !input.thrust_forward {
        ThrusterStatus::Reverse
    } else {
        ThrusterStatus::Idle
    }
}

/// The sign that the thruster gives the thrust.
pub open spec fn thrust_sign(status: ThrusterStatus) -> int {
    match status {
        ThrusterStatus::Forward => 1,
        ThrusterStatus::Reverse => -1,
        ThrusterStatus::Idle => 0,
    }
}

/// The acceleration along `heading`, a vector of length one in thousandths:
/// the heading scaled by the thrust and the thruster's sign.
pub open spec fn acceleration_spec(status: ThrusterStatus, heading: Vec2, thrust: u32) -> Vec2 {
    Vec2 {
        x: scale_spec(heading.x as int, thrust_sign(status) * thrust, 1000) as i32,
        y: scale_spec(heading.y as int, thrust_sign(status) * thrust, 1000) as i32,
    }
}

/// `value` after `delta` milliseconds at `rate` per second, kept within
/// `i32`.
pub open spec fn advanced(value: i32, rate: i32, delta: u64, divisor: int) -> i32 {
    clamp_i32(value + div_trunc(rate * delta, divisor)) as i32
}

/// The point or vector `v` after `delta` milliseconds at the rate `rate`
/// per second.
pub open spec fn integrated(v: Vec2, rate: Vec2, delta: u64) -> Vec2 {
    Vec2 { x: advanced(v.x, rate.x, delta, 1000), y: advanced(v.y, rate.y, delta, 1000) }
}

/// The position after `delta` milliseconds while the game is warping: the
/// time step counts for a seventh.
pub open spec fn warp_integrated(v: Vec2, rate: Vec2, delta: u64) -> Vec2 {
    Vec2 {
        x: advanced(v.x, rate.x, delta, 1000 * WARP_SLOWDOWN),
        y: advanced(v.y, rate.y, delta, 1000 * WARP_SLOWDOWN),
    }
}

/// The velocity after `delta` milliseconds of `acceleration`, and after the
/// speed limit, if there is one.
pub open spec fn accelerated(velocity: Vec2, acceleration: Vec2, delta: u64, max_speed: Option<u32>) -> Vec2 {
    match max_speed {
        Some(limit) => clamp_length_spec(integrated(velocity, acceleration, delta), limit),
        None => integrated(velocity, acceleration, delta),
    }
}

/// The orientation after `delta` milliseconds of turning.
pub open spec fn rotated(rotation: i64, angular: i8, delta: u64, speed: u32) -> i64 {
    clamp_i64(rotation + div_trunc(angular * delta * speed, 1000)) as i64
}

/// With a speed limit, the velocity is within the limit after every step of
/// the integrator, whatever the velocity before it, the acceleration and the
/// length of the step.
pub proof fn lemma_speed_limit(velocity: Vec2, acceleration: Vec2, delta: u64, limit: u32)
    ensures
        norm_sq(accelerated(velocity, acceleration, delta, Some(limit))) <= limit * limit,
{
    lemma_clamp_length_bounded(integrated(velocity, acceleration, delta), limit);
}

/// `value` after `delta` milliseconds at `rate` per second, where a second
/// has `divisor` milliseconds.
fn advance(value: i32, rate: i32, delta: u64, divisor: u64) -> (r: i32)
    requires
        0 < divisor <= 7000,
    ensures
        r == advanced(value, rate, delta, divisor as int),
{
    assert(-0x8000_0000_0000_0000_0000_0000 <= rate * delta <= 0x8000_0000_0000_0000_0000_0000)
        by (nonlinear_arith)
        requires
            -0x8000_0000 <= rate <= 0x8000_0000,
            0 <= delta <= 0xffff_ffff_ffff_ffff,
    ;
    let product: i128 = (rate as i128) * (delta as i128);
    let quotient: i128 = if product >= 0 {
        (product as u128 / divisor as u128) as i128
    } else {
        -(((-product) as u128 / divisor as u128) as i128)
    };
    let sum: i128 = value as i128 + quotient;
    if sum < i32::MIN as i128 {
        i32::MIN
    } else if sum > i32::MAX as i128 {
        i32::MAX
    } else {
        sum as i32
    }
}

/// Reads the turn and the thruster's state off the input.
pub fn player_input(input: &InputSnapshot) -> (r: (i8, ThrusterStatus))
    ensures
        r.0 == turn_of(*input),
        r.1 == thruster_of(*input),
{
    let mut angular: i8 = 0;
    if input.turn_left {
        angular = angular + 1;
    }
    if input.turn_right {
        angular = angular - 1;
    }
    let status = if input.thrust_forward && !input.thrust_reverse {
        ThrusterStatus::Forward
    } else if input.thrust_reverse && !input.thrust_forward {
        ThrusterStatus::Reverse
    } else {
        ThrusterStatus::Idle
    };
    (angular, status)
}

/// The acceleration that the thruster gives along `heading`, a vector of
/// length one in thousandths.
pub fn acceleration(status: ThrusterStatus, heading: Vec2, thrust: u32) -> (r: Vec2)
    ensures
        r == acceleration_spec(status, heading, thrust),
        status == ThrusterStatus::Idle ==> r == (Vec2 { x: 0, y: 0 }),
{
    let signed: i64 = match status {
        ThrusterStatus::Forward => thrust as i64,
        ThrusterStatus::Reverse => -(thrust as i64),
        ThrusterStatus::Idle => 0,
    };
    proof {
        assert(thrust_sign(status) * thrust == signed) by (nonlinear_arith)
            requires
                signed == if status == ThrusterStatus::Forward {
                    thrust as int
                } else if status == ThrusterStatus::Reverse {
                    -(thrust as int)
                } else {
                    0
                },
                thrust_sign(status) == if status == ThrusterStatus::Forward {
                    1int
                } else if status == ThrusterStatus::Reverse {
                    -1int
                } else {
                    0
                },
        ;
        if status == ThrusterStatus::Idle {
            assert(heading.x * 0 == 0 && heading.y * 0 == 0) by (nonlinear_arith);
            assert(0int / 1000 == 0);
        }
    }
    Vec2 {
        x: scale_wide(heading.x as i64, signed, 1000),
        y: scale_wide(heading.y as i64, signed, 1000),
    }
}

/// Integrates the velocity over `delta` milliseconds and then holds it to
/// the speed limit, if there is one: with a limit, the result is never
/// faster than it.
pub fn apply_acceleration(velocity: Vec2, acceleration: Vec2, delta: u64, max_speed: Option<u32>) -> (r: Vec2)
    ensures
        r == accelerated(velocity, acceleration, delta, max_speed),
        max_speed matches Some(limit) ==> norm_sq(r) <= limit * limit,
{
    let v = Vec2 {
        x: advance(velocity.x, acceleration.x, delta, 1000),
        y: advance(velocity.y, acceleration.y, delta, 1000),
    };
    match max_speed {
        Some(limit) => clamp_length_max(v, limit),
        None => v,
    }
}

/// Integrates the orientation over `delta` milliseconds.
pub fn rotation(angle: i64, angular: i8, delta: u64, speed: u32) -> (r: i64)
    ensures
        r == rotated(angle, angular, delta, speed),
{
    assert(-0x8000_0000_0000_0000_0000_0000_0000 <= angular * delta * speed
        <= 0x8000_0000_0000_0000_0000_0000_0000 && -0x80_0000_0000_0000_0000 <= angular * delta
        <= 0x80_0000_0000_0000_0000) by (nonlinear_arith)
        requires
            -0x80 <= angular <= 0x80,
            0 <= delta <= 0xffff_ffff_ffff_ffff,
            0 <= speed <= 0xffff_ffff,
    ;
    let product: i128 = (angular as i128) * (delta as i128) * (speed as i128);
    let quotient: i128 = if product >= 0 {
        (product as u128 / 1000) as i128
    } else {
        -(((-product) as u128 / 1000) as i128)
    };
    let sum: i128 = angle as i128 + quotient;
    if sum < i64::MIN as i128 {
        i64::MIN
    } else if sum > i64::MAX as i128 {
        i64::MAX
    } else {
        sum as i64
    }
}

/// Integrates the position over `delta` milliseconds.
pub fn movement(position: Vec2, velocity: Vec2, delta: u64) -> (r: Vec2)
    ensures
        r == integrated(position, velocity, delta),
{
    Vec2 {
        x: advance(position.x, velocity.x, delta, 1000),
        y: advance(position.y, velocity.y, delta, 1000),
    }
}

/// Integrates the position over `delta` milliseconds while the game is
/// warping, when the world moves at a seventh of its speed.
pub fn warp_movement(position: Vec2, velocity: Vec2, delta: u64) -> (r: Vec2)
    ensures
        r == warp_integrated(position, velocity, delta),
{
    Vec2 {
        x: advance(position.x, velocity.x, delta, 1000 * WARP_SLOWDOWN),
        y: advance(position.y, velocity.y, delta, 1000 * WARP_SLOWDOWN),
    }
}

/// Whether the thruster's flame is shown: only while it pushes forward.
pub fn thruster(status: ThrusterStatus) -> (visible: bool)
    ensures
        visible == (status == ThrusterStatus::Forward),
{
    match status {
        ThrusterStatus::Forward => true,
        _ => false,
    }
}

/// Puts the camera where the player is.
pub fn move_camera(camera: &mut Vec2, player: Vec2)
    ensures
        *final(camera) == player,
{
    *camera = player;
}

impl Motion {
    /// One step of the integrator: the thruster's state gives the
    /// acceleration along `heading`, the acceleration the velocity, which is
    /// held to the speed limit, and the turn the orientation. Returns the
    /// position after the step.
    pub fn integrate(&mut self, position: Vec2, heading: Vec2, delta: u64) -> (r: Vec2)
        ensures
            final(self).acceleration == acceleration_spec(old(self).thruster, heading, old(self).thrust),
            final(self).velocity == accelerated(
                old(self).velocity,
                final(self).acceleration,
                delta,
                old(self).max_speed,
            ),
            final(self).rotation == rotated(
                old(self).rotation,
                old(self).angular_velocity,
                delta,
                old(self).rotation_speed,
            ),
            final(self).angular_velocity == old(self).angular_velocity,
            final(self).rotation_speed == old(self).rotation_speed,
            final(self).thrust == old(self).thrust,
            final(self).thruster == old(self).thruster,
            final(self).max_speed == old(self).max_speed,
            r == integrated(position, final(self).velocity, delta),
            old(self).max_speed matches Some(limit) ==> norm_sq(final(self).velocity) <= limit * limit,
    {
        self.acceleration = acceleration(self.thruster, heading, self.thrust);
        self.velocity = apply_acceleration(self.velocity, self.acceleration, delta, self.max_speed);
        self.rotation = rotation(self.rotation, self.angular_velocity, delta, self.rotation_speed);
        movement(position, self.velocity, delta)
    }
}

} // verus!
