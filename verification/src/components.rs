//! The attribute sets that entities carry, as plain values.

use vstd::prelude::*;

verus! {

/// Hit points, in thousandths. Damage lowers `current` and has no floor.
#[derive(Clone, Copy, Debug, PartialEq, Eq, Structural)]
pub struct Health {
    pub current: i64,
    pub max: i64,
}

/// The fuel that a ship carries, in whole pellets.
#[derive(Clone, Copy, Debug, PartialEq, Eq, Structural)]
pub struct FuelTank {
    pub current: u32,
    pub max: u32,
}

/// `current` lowered by `damage`, kept at the smallest `i64` where the
/// difference does not fit.
pub open spec fn damaged(current: i64, damage: u32) -> i64 {
    if current - damage < i64::MIN { i64::MIN } else { (current - damage) as i64 }
}

impl Health {
    /// Health is valid when it does not exceed its maximum.
    pub open spec fn wf(self) -> bool {
        self.current <= self.max
    }

    /// An entity counts as destroyed as soon as it has taken any damage.
    pub open spec fn dead(self) -> bool {
        self.current < self.max
    }

    /// Full health of `max` thousandths.
    pub fn full(max: i64) -> (h: Health)
        ensures
            h == (Health { current: max, max }),
            h.wf(),
            !h.dead(),
    {
        Health { current: max, max }
    }

    /// Whether the entity has taken any damage.
    pub fn is_dead(&self) -> (r: bool)
        ensures
            r == self.dead(),
    {
        self.current < self.max
    }

    /// Takes `damage` off the current value. The value may go below zero.
    pub fn apply_damage(&mut self, damage: u32)
        ensures
            final(self).max == old(self).max,
            final(self).current == damaged(old(self).current, damage),
            old(self).wf() ==> final(self).wf(),
    {
        let lowered: i128 = self.current as i128 - damage as i128;
        self.current = if lowered < i64::MIN as i128 {
            i64::MIN
        } else {
            lowered as i64
        };
    }
}

impl FuelTank {
    /// A tank is valid when it holds no more than its capacity.
    pub open spec fn wf(self) -> bool {
        self.current <= self.max
    }

    /// Whether the tank is exactly full.
    pub open spec fn full(self) -> bool {
        self.current == self.max
    }

    /// An empty tank that holds up to `max` pellets.
    pub fn new(max: u32) -> (t: FuelTank)
        ensures
            t == (FuelTank { current: 0, max }),
            t.wf(),
    {
        FuelTank { current: 0, max }
    }

    /// Whether the tank is valid: it holds no more than its capacity.
    pub fn is_valid(&self) -> (r: bool)
        ensures
            r == self.wf(),
    {
        self.current <= self.max
    }

    /// Whether the tank is exactly full.
    pub fn is_full(&self) -> (r: bool)
        ensures
            r == self.full(),
    {
        self.current == self.max
    }

    /// Adds one pellet, unless the tank is full already.
    pub fn add_one(&mut self)
        requires
            old(self).wf(),
        ensures
            final(self).max == old(self).max,
            final(self).current == if old(self).current < old(self).max {
                old(self).current + 1
            } else {
                old(self).max as int
            },
            final(self).wf(),
    {
        if self.current < self.max {
            self.current = self.current + 1;
        }
    }

    /// Empties the tank.
    pub fn drain(&mut self)
        ensures
            *final(self) == (FuelTank { current: 0, max: old(self).max }),
            final(self).wf(),
    {
        self.current = 0;
    }
}

} // verus!
