//! The laser: when it fires, what its bullets hit, and when they expire.

use vstd::prelude::*;
use crate::components::Health;
use crate::enemy::Enemy;
use crate::geometry::{add_sat, clamp_i32, clamp_to_i32, dist_sq, distance_squared, Vec2};
use crate::timer::{tick_spec, Timer};

verus! {

/// How far in front of its owner a bullet appears, in world units.
pub const MUZZLE_OFFSET: i32 = 25;

/// The speed of a bullet, in world units per second.
pub const BULLET_SPEED: i32 = 100;

/// How far a bullet travels before it expires.
pub const BULLET_RANGE: u32 = 200_000;

/// A bullet hits the enemies that are nearer to it than this.
pub const HIT_RADIUS: u64 = 10_000;

/// A weapon that fires whenever its timer does.
#[derive(Clone, Copy, Debug, PartialEq, Eq, Structural)]
pub struct BasicLaser {
    pub timer: Timer,
    pub damage: u32,
}

/// A projectile with a limited range.
#[derive(Clone, Copy, Debug, PartialEq, Eq, Structural)]
pub struct Bullet {
    pub position: Vec2,
    pub velocity: Vec2,
    pub origin: Vec2,
    pub range: u32,
    pub damage: u32,
    pub piercing: bool,
}

/// `v` with each component multiplied by `factor` and kept within `i32`.
pub open spec fn stretched(v: Vec2, factor: int) -> Vec2 {
    Vec2 { x: clamp_i32(v.x * factor) as i32, y: clamp_i32(v.y * factor) as i32 }
}

/// The bullet that a laser with the given damage fires from `owner` along
/// `heading`, a vector of length one in thousandths: it appears in front of
/// the owner and flies along the heading.
pub open spec fn fired_bullet(damage: u32, owner: Vec2, heading: Vec2) -> Bullet {
    let muzzle = add_sat(stretched(heading, MUZZLE_OFFSET as int), owner);
    Bullet {
        position: muzzle,
        velocity: stretched(heading, BULLET_SPEED as int),
        origin: muzzle,
        range: BULLET_RANGE,
        damage,
        piercing: false,
    }
}

/// Whether the bullet is near enough to the enemy to hit it.
pub open spec fn in_hit_range(b: Bullet, e: Enemy) -> bool {
    dist_sq(e.position, b.position) < HIT_RADIUS * HIT_RADIUS
}

/// Whether the bullet is near enough to any of the enemies to hit it.
pub open spec fn meets_any(b: Bullet, enemies: Seq<Enemy>) -> bool {
    exists|j: int| 0 <= j < enemies.len() && in_hit_range(b, #[trigger] enemies[j])
}

/// Whether the bullet hits the enemy at index `j`: the enemy is in range
/// and, unless the bullet pierces, no enemy before it is.
pub open spec fn hits(b: Bullet, enemies: Seq<Enemy>, j: int) -> bool {
    &&& 0 <= j < enemies.len()
    &&& in_hit_range(b, enemies[j])
    &&& b.piercing || forall|k: int| 0 <= k < j ==> !in_hit_range(b, #[trigger] enemies[k])
}

/// Whether the bullet is used up by a hit: it does not pierce, and an enemy
/// is in range.
pub open spec fn consumed(b: Bullet, enemies: Seq<Enemy>) -> bool {
    !b.piercing && meets_any(b, enemies)
}

/// The damage that the first `n` bullets do to the enemy at index `j`.
pub open spec fn damage_to(bullets: Seq<Bullet>, enemies: Seq<Enemy>, j: int, n: int) -> int
    decreases n,
{
    if n <= 0 {
        0
    } else {
        damage_to(bullets, enemies, j, n - 1) + if hits(bullets[n - 1], enemies, j) {
            bullets[n - 1].damage as int
        } else {
            0
        }
    }
}

/// Health `current` after a total of `damage`, kept at the smallest `i64`
/// where the difference does not fit.
pub open spec fn lowered(current: i64, damage: int) -> i64 {
    if current - damage < i64::MIN { i64::MIN } else { (current - damage) as i64 }
}

/// The enemy after a total of `damage`: its health is lowered and nothing
/// else changes.
pub open spec fn wounded(e: Enemy, damage: int) -> Enemy {
    Enemy { health: Health { current: lowered(e.health.current, damage), max: e.health.max }, ..e }
}

/// Whether the bullet has travelled farther from its origin than its range.
pub open spec fn out_of_range(b: Bullet) -> bool {
    dist_sq(b.origin, b.position) > b.range * b.range
}

/// `v` with each component multiplied by `factor` and kept within `i32`.
pub fn stretch(v: Vec2, factor: i32) -> (r: Vec2)
    ensures
        r == stretched(v, factor as int),
{
    assert(-0x4000_0000_0000_0000 <= v.x * factor <= 0x4000_0000_0000_0000 && -0x4000_0000_0000_0000
        <= v.y * factor <= 0x4000_0000_0000_0000) by (nonlinear_arith)
        requires
            -0x8000_0000 <= v.x <= 0x8000_0000,
            -0x8000_0000 <= v.y <= 0x8000_0000,
            -0x8000_0000 <= factor <= 0x8000_0000,
    ;
    Vec2 {
        x: clamp_to_i32((v.x as i64) * (factor as i64)),
        y: clamp_to_i32((v.y as i64) * (factor as i64)),
    }
}

/// A bullet that pierces is never used up, whatever it hits.
pub proof fn lemma_piercing_survives(b: Bullet, enemies: Seq<Enemy>)
    requires
        b.piercing,
    ensures
        !consumed(b, enemies),
{
}

/// A bullet that does not pierce hits at most one enemy, and is used up
/// exactly when it hits one.
pub proof fn lemma_single_hit(b: Bullet, enemies: Seq<Enemy>, j: int, k: int)
    requires
        !b.piercing,
    ensures
        hits(b, enemies, j) && hits(b, enemies, k) ==> j == k,
        hits(b, enemies, j) ==> consumed(b, enemies),
        consumed(b, enemies) ==> exists|h: int| #[trigger] hits(b, enemies, h),
{
    if consumed(b, enemies) {
        let some = choose|j: int| 0 <= j < enemies.len() && in_hit_range(b, #[trigger] enemies[j]);
        let first = lemma_first_in_range(b, enemies, some);
        assert(hits(b, enemies, first));
    }
}

/// Below an index at which an enemy is in range, some enemy is the first in
/// range.
proof fn lemma_first_in_range(b: Bullet, enemies: Seq<Enemy>, upto: int) -> (h: int)
    requires
        0 <= upto < enemies.len(),
        in_hit_range(b, enemies[upto]),
    ensures
        0 <= h <= upto,
        in_hit_range(b, enemies[h]),
        forall|k: int| 0 <= k < h ==> !in_hit_range(b, #[trigger] enemies[k]),
    decreases upto,
{
    if exists|k: int| 0 <= k < upto && in_hit_range(b, #[trigger] enemies[k]) {
        let k = choose|k: int| 0 <= k < upto && in_hit_range(b, #[trigger] enemies[k]);
        lemma_first_in_range(b, enemies, k)
    } else {
        upto
    }
}

impl BasicLaser {
    /// Advances the laser's timer by `delta` and, where it fires, returns
    /// the bullet: in front of `owner` along `heading`, a vector of length
    /// one in thousandths, flying along it.
    pub fn fire(&mut self, delta: u64, owner: Vec2, heading: Vec2) -> (r: Option<Bullet>)
        requires
            old(self).timer.wf(),
        ensures
            final(self).timer == tick_spec(old(self).timer, delta),
            final(self).timer.wf(),
            final(self).damage == old(self).damage,
            r == if final(self).timer.fired() {
                Some(fired_bullet(old(self).damage, owner, heading))
            } else {
                None
            },
    {
        self.timer.tick(delta);
        if !self.timer.just_finished() {
            return None;
        }
        let muzzle: Vec2 = stretch(heading, MUZZLE_OFFSET).saturating_add(owner);
        Some(
            Bullet {
                position: muzzle,
                velocity: stretch(heading, BULLET_SPEED),
                origin: muzzle,
                range: BULLET_RANGE,
                damage: self.damage,
                piercing: false,
            },
        )
    }
}

/// Lets every bullet hit the enemies in its range. A bullet that pierces
/// damages each of them and stays. One that does not damages the first of
/// them, in the order of `enemies`, and is removed at once: no enemy after
/// that one is hit by it. Damage lowers the enemy's current health and has
/// no floor. The bullets that are left keep their order.
pub fn collide(bullets: &mut Vec<Bullet>, enemies: &mut Vec<Enemy>)
    ensures
        final(bullets)@ == old(bullets)@.filter(|b: Bullet| !consumed(b, old(enemies)@)),
        final(enemies)@.len() == old(enemies)@.len(),
        forall|j: int|
            0 <= j < old(enemies)@.len() ==> #[trigger] final(enemies)@[j] == wounded(
                old(enemies)@[j],
                damage_to(old(bullets)@, old(enemies)@, j, old(bullets)@.len() as int),
            ),
{
    let ghost all = bullets@;
    let ghost foes = enemies@;
    let ghost survives = |b: Bullet| !consumed(b, foes);
    let reach: u128 = (HIT_RADIUS as u128) * (HIT_RADIUS as u128);
    let mut kept: Vec<Bullet> = Vec::new();
    let mut i: usize = 0;
    assert(all.take(0) =~= Seq::<Bullet>::empty());
    while i < bullets.len()
        invariant
            i <= all.len(),
            bullets@ == all,
            enemies@.len() == foes.len(),
            reach == HIT_RADIUS * HIT_RADIUS,
            survives == (|b: Bullet| !consumed(b, foes)),
            kept@ == all.take(i as int).filter(survives),
            forall|j: int|
                0 <= j < foes.len() ==> #[trigger] enemies@[j] == wounded(
                    foes[j],
                    damage_to(all, foes, j, i as int),
                ),
            forall|j: int| 0 <= j < foes.len() ==> #[trigger] damage_to(all, foes, j, i as int) >= 0,
        decreases all.len() - i,
    {
        let b: Bullet = bullets[i];
        let ghost mid = enemies@;
        let mut used: bool = false;
        let mut j: usize = 0;
        while j < enemies.len() && !used
            invariant
                j <= foes.len(),
                enemies@.len() == foes.len(),
                mid.len() == foes.len(),
                reach == HIT_RADIUS * HIT_RADIUS,
                forall|k: int| 0 <= k < foes.len() ==> (#[trigger] mid[k]).position == foes[k].position,
                forall|k: int|
                    0 <= k < j ==> #[trigger] enemies@[k] == wounded(
                        mid[k],
                        if hits(b, foes, k) { b.damage as int } else { 0 },
                    ),
                forall|k: int| j <= k < foes.len() ==> #[trigger] enemies@[k] == mid[k],
                used ==> !b.piercing && j > 0 && in_hit_range(b, foes[j - 1]),
                !used && !b.piercing ==> forall|k: int|
                    0 <= k < j ==> !in_hit_range(b, #[trigger] foes[k]),
            decreases foes.len() - j + if used { 0int } else { 1int },
        {
            let e: Enemy = enemies[j];
            assert(e == mid[j as int]);
            if distance_squared(e.position, b.position) < reach {
                let mut health: Health = e.health;
                health.apply_damage(b.damage);
                enemies.set(j, Enemy { health, ..e });
                if !b.piercing {
                    used = true;
                }
                assert(hits(b, foes, j as int));
            } else {
                assert(!hits(b, foes, j as int));
            }
            j = j + 1;
        }
        proof {
            let next: int = i + 1;
            assert forall|k: int| 0 <= k < foes.len() implies #[trigger] damage_to(
                all,
                foes,
                k,
                next,
            ) >= 0 by {
                assert(damage_to(all, foes, k, i as int) >= 0);
            }
            assert forall|k: int| 0 <= k < foes.len() implies #[trigger] enemies@[k] == wounded(
                foes[k],
                damage_to(all, foes, k, next),
            ) by {
                assert(damage_to(all, foes, k, i as int) >= 0);
                assert(mid[k] == wounded(foes[k], damage_to(all, foes, k, i as int)));
                if k >= j {
                    assert(enemies@[k] == mid[k]);
                    assert(!hits(b, foes, k)) by {
                        if used {
                            assert(in_hit_range(b, foes[j - 1]));
                        } else if !b.piercing {
                        }
                    }
                }
            }
            if used {
                assert(in_hit_range(b, foes[j - 1]));
                assert(consumed(b, foes));
            } else {
                assert(!consumed(b, foes));
            }
            all.lemma_take_succ_push(i as int);
            all.take(i as int).lemma_filter_push(b, survives);
        }
        if !used {
            kept.push(b);
        }
        i = i + 1;
    }
    assert(all.take(all.len() as int) =~= all);
    *bullets = kept;
}

/// Removes the bullets that have travelled farther from their origin than
/// their range, whatever they have hit. The others keep their order.
pub fn despawn(bullets: &mut Vec<Bullet>)
    ensures
        final(bullets)@ == old(bullets)@.filter(|b: Bullet| !out_of_range(b)),
        forall|i: int| 0 <= i < final(bullets)@.len() ==> !out_of_range(#[trigger] final(bullets)@[i]),
{
    let ghost within = |b: Bullet| !out_of_range(b);
    let ghost all = bullets@;
    let mut kept: Vec<Bullet> = Vec::new();
    let mut i: usize = 0;
    assert(all.take(0) =~= Seq::<Bullet>::empty());
    while i < bullets.len()
        invariant
            i <= all.len(),
            bullets@ == all,
            within == (|b: Bullet| !out_of_range(b)),
            kept@ == all.take(i as int).filter(within),
            forall|k: int| 0 <= k < kept@.len() ==> !out_of_range(#[trigger] kept@[k]),
        decreases all.len() - i,
    {
        let b: Bullet = bullets[i];
        assert(b.range * b.range <= 0xffff_ffff * 0xffff_ffff) by (nonlinear_arith)
            requires
                b.range <= 0xffff_ffff,
        ;
        let reach: u128 = (b.range as u128) * (b.range as u128);
        proof {
            all.lemma_take_succ_push(i as int);
            all.take(i as int).lemma_filter_push(b, within);
        }
        if distance_squared(b.origin, b.position) <= reach {
            kept.push(b);
        }
        i = i + 1;
    }
    assert(all.take(all.len() as int) =~= all);
    *bullets = kept;
}

} // verus!
