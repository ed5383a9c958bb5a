//! Travel between levels: the switch between exploring and warping, and the
//! four timed phases of a warp.

use vstd::prelude::*;
use crate::commodity::{CommodityPrices, FULL_CIRCLE, LAYOUT_GAP};
use crate::random::{random_below, random_circular_distribution};
use crate::components::FuelTank;
use crate::geometry::{dist_sq, distance_squared, Vec2};
use crate::timer::{fresh, reset_spec, tick_spec, Timer, TimerMode};

verus! {

/// How long the approach lasts, in milliseconds.
pub const APPROACH_PERIOD: u64 = 3000;

/// How long the overlay takes to turn opaque, and later to clear again.
pub const FADE_PERIOD: u64 = 3000;

/// How long the overlay stays opaque.
pub const DWELL_PERIOD: u64 = 1000;

/// A warp starts when the player is nearer than this to a warp node.
pub const ACTIVATION_RADIUS: u64 = 80_000;

/// Full opacity, in thousandths.
pub const OPAQUE: u32 = 1000;

/// The number of warp nodes in a level.
pub const NODES_PER_LEVEL: u32 = 3;

/// The least distance of a warp node from the origin.
pub const NODE_NEAR: u32 = 2_600_000;

/// The distance from the origin that no warp node reaches.
pub const NODE_FAR: u32 = 3_000_000;

/// The mode that the game is in.
#[derive(Clone, Copy, Debug, PartialEq, Eq, Structural)]
pub enum GameState {
    Exploring,
    Warping,
}

/// Where a travel cycle stands.
#[derive(Clone, Copy, Debug, PartialEq, Eq, Structural)]
pub enum Phase {
    /// No warp is under way.
    Idle,
    /// The stars streak past.
    Approach,
    /// The overlay turns opaque.
    FadeOut,
    /// The overlay stays opaque.
    Dwell,
    /// The overlay clears; the game is in the exploring mode again.
    FadeIn,
}

/// A destination that the player can warp to.
#[derive(Debug)]
pub struct WarpNode {
    pub id: u64,
    pub position: Vec2,
    pub prices: CommodityPrices,
}

/// Where a warp node is to be put when a level is set up: its label, what
/// it pays, and its place as an angle in degrees and a distance from the
/// origin.
#[derive(Debug)]
pub struct NodePlacement {
    pub label: char,
    pub prices: CommodityPrices,
    pub angle: u32,
    pub distance: u32,
}

/// The price sheet of the destination that the player is warping to.
#[derive(Debug)]
pub struct WarpedTo(pub CommodityPrices);

/// The four timers of a warp, one for each phase.
#[derive(Clone, Copy, Debug, PartialEq, Eq, Structural)]
pub struct WarpAnimation {
    pub starfield_timer: Timer,
    pub fade_out_timer: Timer,
    pub fade_dwell_timer: Timer,
    pub fade_in_timer: Timer,
}

/// What a tick of the warp asks of the world around it.
#[derive(Clone, Copy, Debug, PartialEq, Eq, Structural)]
pub struct WarpOutcome {
    /// The approach has ended: the overlay is to be created, transparent.
    pub overlay_spawned: bool,
    /// The opacity to give the overlay, in thousandths, where it changes.
    pub opacity: Option<u32>,
    /// The dwell has ended: the player has arrived.
    pub arrived: bool,
}

/// What a tick of the fade-in asks of the world around it.
#[derive(Clone, Copy, Debug, PartialEq, Eq, Structural)]
pub struct FadeOutcome {
    /// The fade-in has ended: the overlay is to be removed.
    pub overlay_destroyed: bool,
    /// The opacity to give the overlay, in thousandths, where it changes.
    pub opacity: Option<u32>,
}

/// The travel state: the mode, the timers, and the sale that is pending.
#[derive(Debug)]
pub struct Travel {
    pub state: GameState,
    pub animation: WarpAnimation,
    pub warped_to: Option<WarpedTo>,
}

/// The cubic ease-out curve over thousandths: `1 - (1 - t)^3`.
pub open spec fn cubic_out_spec(t: int) -> int {
    1000 - (1000 - t) * (1000 - t) * (1000 - t) / 1_000_000
}

/// A timer that waits for its phase: paused at zero.
pub open spec fn waiting(period: u64) -> Timer {
    Timer { paused: true, ..fresh(period, TimerMode::Once) }
}

/// A timer put back to waiting: paused at zero, whatever its period.
pub open spec fn shelved(t: Timer) -> Timer {
    Timer { paused: true, ..reset_spec(t) }
}

/// Whether a timer is inert: paused, with no time elapsed and nothing to
/// report.
pub open spec fn inert(t: Timer) -> bool {
    t.paused && t.elapsed == 0 && !t.finished && !t.fired()
}

/// Whether all four timers of the animation are inert.
pub open spec fn at_rest(a: WarpAnimation) -> bool {
    &&& inert(a.starfield_timer)
    &&& inert(a.fade_out_timer)
    &&& inert(a.fade_dwell_timer)
    &&& inert(a.fade_in_timer)
}

/// The animation with all four timers put back to their inert state: paused
/// at zero.
pub open spec fn rewound(a: WarpAnimation) -> WarpAnimation {
    WarpAnimation {
        starfield_timer: shelved(a.starfield_timer),
        fade_out_timer: shelved(a.fade_out_timer),
        fade_dwell_timer: shelved(a.fade_dwell_timer),
        fade_in_timer: shelved(a.fade_in_timer),
    }
}

/// The animation as a warp starts: all four timers put back to zero, and
/// the approach timer running.
pub open spec fn launched(a: WarpAnimation) -> WarpAnimation {
    WarpAnimation {
        starfield_timer: Timer { paused: false, ..shelved(a.starfield_timer) },
        ..rewound(a)
    }
}

/// The timers after a tick in the warping mode. Each timer is ticked in
/// turn, and a timer that fires lets the next one run within the same tick.
pub open spec fn warp_spec(a: WarpAnimation, delta: u64) -> WarpAnimation {
    let starfield = tick_spec(a.starfield_timer, delta);
    let fade_out = tick_spec(
        if starfield.fired() { Timer { paused: false, ..a.fade_out_timer } } else { a.fade_out_timer },
        delta,
    );
    let dwell = tick_spec(
        if fade_out.fired() { Timer { paused: false, ..a.fade_dwell_timer } } else { a.fade_dwell_timer },
        delta,
    );
    WarpAnimation {
        starfield_timer: starfield,
        fade_out_timer: fade_out,
        fade_dwell_timer: dwell,
        fade_in_timer: if dwell.fired() {
            Timer { paused: false, ..a.fade_in_timer }
        } else {
            a.fade_in_timer
        },
    }
}

/// What a tick in the warping mode reports, given the timers after it.
pub open spec fn warp_outcome(after: WarpAnimation) -> WarpOutcome {
    WarpOutcome {
        overlay_spawned: after.starfield_timer.fired(),
        opacity: if after.fade_out_timer.fired() {
            Some(OPAQUE)
        } else if !after.fade_out_timer.paused && !after.fade_out_timer.finished {
            Some(cubic_out_spec(crate::timer::fraction_spec(after.fade_out_timer)) as u32)
        } else {
            None
        },
        arrived: after.fade_dwell_timer.fired(),
    }
}

/// The timers after a tick of the fade-in.
pub open spec fn end_warp_spec(a: WarpAnimation, delta: u64) -> WarpAnimation {
    let fade_in = tick_spec(a.fade_in_timer, delta);
    if fade_in.fired() {
        rewound(WarpAnimation { fade_in_timer: fade_in, ..a })
    } else {
        WarpAnimation { fade_in_timer: fade_in, ..a }
    }
}

/// What a tick of the fade-in reports, given the fade-in timer after its
/// tick.
pub open spec fn fade_outcome(fade_in: Timer) -> FadeOutcome {
    FadeOutcome {
        overlay_destroyed: fade_in.fired(),
        opacity: if !fade_in.fired() && !fade_in.paused && !fade_in.finished {
            Some(cubic_out_spec(1000 - crate::timer::fraction_spec(fade_in)) as u32)
        } else {
            None
        },
    }
}

/// What a tick of the travel state asks of the world around it.
#[derive(Clone, Copy, Debug, PartialEq, Eq, Structural)]
pub struct TravelOutcome {
    /// The overlay is to be created, transparent.
    pub overlay_spawned: bool,
    /// The overlay is to be removed.
    pub overlay_destroyed: bool,
    /// The opacity to give the overlay, in thousandths, where it changes.
    pub opacity: Option<u32>,
    /// The player has arrived: the game is in the exploring mode again.
    pub arrived: bool,
}

/// A timer that has not been started: paused, and not finished.
pub open spec fn is_waiting(t: Timer) -> bool {
    t.paused && !t.finished
}

/// A timer that runs and has not finished.
pub open spec fn is_running(t: Timer) -> bool {
    !t.paused && !t.finished
}

/// A timer that ran and has finished.
pub open spec fn is_done(t: Timer) -> bool {
    !t.paused && t.finished
}

/// The phase that the mode and the timers stand for.
pub open spec fn phase_of(state: GameState, a: WarpAnimation) -> Phase {
    match state {
        GameState::Exploring => if is_waiting(a.fade_in_timer) { Phase::Idle } else { Phase::FadeIn },
        GameState::Warping => if !a.starfield_timer.finished {
            Phase::Approach
        } else if !a.fade_out_timer.finished {
            Phase::FadeOut
        } else {
            Phase::Dwell
        },
    }
}

/// Whether the timers are as the phase has them: those of earlier phases
/// done, that of the phase running, those of later phases waiting. While no
/// warp is under way no timer has finished, and the approach timer may be
/// paused, as it is after a cycle, or ready to run, as it is at the start of
/// the game.
pub open spec fn fits_phase(a: WarpAnimation, phase: Phase) -> bool {
    &&& a.wf()
    &&& match phase {
        Phase::Idle => {
            &&& !a.starfield_timer.finished
            &&& is_waiting(a.fade_out_timer)
            &&& is_waiting(a.fade_dwell_timer)
            &&& is_waiting(a.fade_in_timer)
        },
        Phase::Approach => {
            &&& is_running(a.starfield_timer)
            &&& is_waiting(a.fade_out_timer)
            &&& is_waiting(a.fade_dwell_timer)
            &&& is_waiting(a.fade_in_timer)
        },
        Phase::FadeOut => {
            &&& is_done(a.starfield_timer)
            &&& is_running(a.fade_out_timer)
            &&& is_waiting(a.fade_dwell_timer)
            &&& is_waiting(a.fade_in_timer)
        },
        Phase::Dwell => {
            &&& is_done(a.starfield_timer)
            &&& is_done(a.fade_out_timer)
            &&& is_running(a.fade_dwell_timer)
            &&& is_waiting(a.fade_in_timer)
        },
        Phase::FadeIn => {
            &&& is_done(a.starfield_timer)
            &&& is_done(a.fade_out_timer)
            &&& is_done(a.fade_dwell_timer)
            &&& is_running(a.fade_in_timer)
        },
    }
}

/// The place of a phase in a travel cycle.
pub open spec fn rank(phase: Phase) -> int {
    match phase {
        Phase::Approach => 1,
        Phase::FadeOut => 2,
        Phase::Dwell => 3,
        Phase::FadeIn => 4,
        Phase::Idle => 5,
    }
}

/// The mode and the timers after a tick: in the warping mode the warp is
/// advanced, and the mode turns to exploring when the dwell ends; in the
/// exploring mode the fade-in is advanced, and the mode stays.
pub open spec fn travel_tick_spec(state: GameState, a: WarpAnimation, delta: u64) -> (
    GameState,
    WarpAnimation,
) {
    match state {
        GameState::Warping => {
            let after = warp_spec(a, delta);
            (if after.fade_dwell_timer.fired() { GameState::Exploring } else { GameState::Warping }, after)
        },
        GameState::Exploring => (GameState::Exploring, end_warp_spec(a, delta)),
    }
}

/// What a tick reports, given the mode before it and the timers before and
/// after it.
pub open spec fn travel_outcome(state: GameState, before: WarpAnimation, delta: u64) -> TravelOutcome {
    match state {
        GameState::Warping => {
            let o = warp_outcome(warp_spec(before, delta));
            TravelOutcome {
                overlay_spawned: o.overlay_spawned,
                overlay_destroyed: false,
                opacity: o.opacity,
                arrived: o.arrived,
            }
        },
        GameState::Exploring => {
            let o = fade_outcome(tick_spec(before.fade_in_timer, delta));
            TravelOutcome {
                overlay_spawned: false,
                overlay_destroyed: o.overlay_destroyed,
                opacity: o.opacity,
                arrived: false,
            }
        },
    }
}

/// The phases of a travel cycle come in one order: approach, fade-out,
/// dwell, fade-in, idle. A tick never goes back in that order, whatever its
/// length. The mode turns from warping to exploring on the tick on which the
/// dwell ends, which is the tick that enters the fade-in, and on no other;
/// the end of the fade-in leaves the mode alone, enters the idle phase, and
/// leaves all four timers inert: paused, with no time elapsed.
pub proof fn lemma_phase_order(state: GameState, a: WarpAnimation, delta: u64)
    requires
        fits_phase(a, phase_of(state, a)),
    ensures
        ({
            let before = phase_of(state, a);
            let next = travel_tick_spec(state, a, delta);
            let after = phase_of(next.0, next.1);
            &&& fits_phase(next.1, after)
            &&& rank(before) <= rank(after)
            &&& next.0 != state <==> (state == GameState::Warping && after == Phase::FadeIn)
            &&& next.0 != state <==> travel_outcome(state, a, delta).arrived
            &&& after == Phase::FadeIn && before != Phase::FadeIn ==> next.1.fade_dwell_timer.fired()
            &&& before == Phase::FadeIn ==> next.0 == GameState::Exploring && (after == Phase::FadeIn
                || after == Phase::Idle)
            &&& before == Phase::FadeIn && after == Phase::Idle <==> travel_outcome(
                state,
                a,
                delta,
            ).overlay_destroyed
            &&& travel_outcome(state, a, delta).overlay_destroyed ==> at_rest(next.1) && next.0
                == GameState::Exploring
            &&& before == Phase::Idle ==> after == Phase::Idle
        }),
{
}

/// The index of the first node that is within the activation radius of the
/// player, if there is one.
pub open spec fn is_first_in_range(nodes: Seq<WarpNode>, player: Vec2, i: int) -> bool {
    &&& 0 <= i < nodes.len()
    &&& dist_sq(player, nodes[i].position) < ACTIVATION_RADIUS * ACTIVATION_RADIUS
    &&& forall|j: int|
        0 <= j < i ==> dist_sq(player, (#[trigger] nodes[j]).position) >= ACTIVATION_RADIUS
            * ACTIVATION_RADIUS
}

/// Whether no node is within the activation radius of the player.
pub open spec fn none_in_range(nodes: Seq<WarpNode>, player: Vec2) -> bool {
    forall|j: int|
        0 <= j < nodes.len() ==> dist_sq(player, (#[trigger] nodes[j]).position) >= ACTIVATION_RADIUS
            * ACTIVATION_RADIUS
}

/// The index of the first node that is within the activation radius of the
/// player.
pub fn node_in_range(nodes: &Vec<WarpNode>, player: Vec2) -> (r: Option<usize>)
    ensures
        match r {
            Some(i) => is_first_in_range(nodes@, player, i as int),
            None => none_in_range(nodes@, player),
        },
{
    let reach: u128 = (ACTIVATION_RADIUS as u128) * (ACTIVATION_RADIUS as u128);
    let mut i: usize = 0;
    while i < nodes.len()
        invariant
            i <= nodes.len(),
            reach == ACTIVATION_RADIUS * ACTIVATION_RADIUS,
            forall|j: int|
                0 <= j < i ==> dist_sq(player, (#[trigger] nodes@[j]).position) >= ACTIVATION_RADIUS
                    * ACTIVATION_RADIUS,
        decreases nodes.len() - i,
    {
        if distance_squared(player, nodes[i].position) < reach {
            return Some(i);
        }
        i = i + 1;
    }
    None
}

impl Travel {
    /// The timers are as the phase has them.
    pub open spec fn wf(self) -> bool {
        fits_phase(self.animation, self.phase())
    }

    /// Where the travel cycle stands.
    pub open spec fn phase(self) -> Phase {
        phase_of(self.state, self.animation)
    }

    /// The travel state at the start of the game: exploring, no warp under
    /// way, no sale pending.
    pub fn new() -> (t: Travel)
        ensures
            t.state == GameState::Exploring,
            t.animation == WarpAnimation::initial(),
            t.warped_to is None,
            t.wf(),
            t.phase() == Phase::Idle,
    {
        Travel { state: GameState::Exploring, animation: WarpAnimation::new(), warped_to: None }
    }

    /// Starts a warp where the game is exploring, the tank is exactly full
    /// and the player is within the activation radius of a node. The first
    /// such node is the destination: its index is returned, its price sheet
    /// is kept for the sale on arrival, all four timers are put back to
    /// zero, the approach timer is started, and the mode turns to warping.
    /// Otherwise nothing changes.
    pub fn start_warp(&mut self, fuel: &FuelTank, player: Vec2, nodes: &Vec<WarpNode>) -> (r: Option<usize>)
        requires
            old(self).wf(),
        ensures
            final(self).wf(),
            r is Some <==> old(self).state == GameState::Exploring && fuel.full() && !none_in_range(
                nodes@,
                player,
            ),
            match r {
                Some(i) => {
                    &&& is_first_in_range(nodes@, player, i as int)
                    &&& final(self).state == GameState::Warping
                    &&& final(self).phase() == Phase::Approach
                    &&& final(self).animation == launched(old(self).animation)
                    &&& final(self).warped_to matches Some(w) && w.0@ == nodes@[i as int].prices@
                },
                None => *final(self) == *old(self),
            },
    {
        match self.state {
            GameState::Warping => {
                return None;
            },
            GameState::Exploring => {},
        }
        if !fuel.is_full() {
            return None;
        }
        match node_in_range(nodes, player) {
            Some(i) => {
                self.animation.reset();
                self.animation.starfield_timer.unpause();
                self.state = GameState::Warping;
                self.warped_to = Some(WarpedTo(nodes[i].prices.duplicate()));
                Some(i)
            },
            None => None,
        }
    }

    /// Advances the travel cycle by `delta` milliseconds and reports what
    /// the world is to do. The phase never goes back; the mode turns to
    /// exploring exactly when the outcome says that the player has arrived.
    pub fn tick(&mut self, delta: u64) -> (r: TravelOutcome)
        requires
            old(self).wf(),
        ensures
            final(self).wf(),
            (final(self).state, final(self).animation) == travel_tick_spec(
                old(self).state,
                old(self).animation,
                delta,
            ),
            final(self).warped_to == old(self).warped_to,
            r == travel_outcome(old(self).state, old(self).animation, delta),
            rank(old(self).phase()) <= rank(final(self).phase()),
            r.arrived <==> final(self).state != old(self).state,
            r.arrived ==> final(self).phase() == Phase::FadeIn,
            r.overlay_destroyed ==> at_rest(final(self).animation) && final(self).phase()
                == Phase::Idle,
            r.opacity matches Some(o) ==> o <= OPAQUE,
    {
        proof {
            lemma_phase_order(self.state, self.animation, delta);
        }
        match self.state {
            GameState::Warping => {
                let o = self.animation.warp(delta);
                if o.arrived {
                    self.state = GameState::Exploring;
                }
                TravelOutcome {
                    overlay_spawned: o.overlay_spawned,
                    overlay_destroyed: false,
                    opacity: o.opacity,
                    arrived: o.arrived,
                }
            },
            GameState::Exploring => {
                let o = self.animation.end_warp(delta);
                TravelOutcome {
                    overlay_spawned: false,
                    overlay_destroyed: o.overlay_destroyed,
                    opacity: o.opacity,
                    arrived: false,
                }
            },
        }
    }

    /// Whether the travel state is valid: the timers are as the phase has
    /// them.
    pub fn is_valid(&self) -> (r: bool)
        ensures
            r == self.wf(),
    {
        let a = &self.animation;
        if !a.is_valid() {
            return false;
        }
        let out_waits: bool = a.fade_out_timer.paused() && !a.fade_out_timer.finished();
        let dwell_waits: bool = a.fade_dwell_timer.paused() && !a.fade_dwell_timer.finished();
        let in_waits: bool = a.fade_in_timer.paused() && !a.fade_in_timer.finished();
        let star_done: bool = !a.starfield_timer.paused() && a.starfield_timer.finished();
        let out_done: bool = !a.fade_out_timer.paused() && a.fade_out_timer.finished();
        match self.state {
            GameState::Exploring => {
                if in_waits {
                    !a.starfield_timer.finished() && out_waits && dwell_waits
                } else {
                    star_done && out_done && !a.fade_dwell_timer.paused()
                        && a.fade_dwell_timer.finished() && !a.fade_in_timer.paused()
                        && !a.fade_in_timer.finished()
                }
            },
            GameState::Warping => {
                if !a.starfield_timer.finished() {
                    !a.starfield_timer.paused() && out_waits && dwell_waits && in_waits
                } else if !a.fade_out_timer.finished() {
                    star_done && !a.fade_out_timer.paused() && dwell_waits && in_waits
                } else {
                    star_done && out_done && !a.fade_dwell_timer.paused()
                        && !a.fade_dwell_timer.finished() && in_waits
                }
            },
        }
    }

    /// Hands out the price sheet of the destination, if a sale is pending;
    /// none is pending afterwards.
    pub fn take_sale(&mut self) -> (r: Option<WarpedTo>)
        ensures
            r == old(self).warped_to,
            final(self).warped_to is None,
            final(self).state == old(self).state,
            final(self).animation == old(self).animation,
    {
        self.warped_to.take()
    }
}

/// By how much the stars speed up during the approach, in thousandths: from
/// one at its start to a hundred and one at its end, along a quadratic
/// ease-in of the elapsed fraction `t`, itself in thousandths.
pub open spec fn starfield_boost_spec(t: int) -> int {
    1000 + t * t / 10
}

/// By how much the stars speed up once `t` thousandths of the approach have
/// elapsed, in thousandths.
pub fn starfield_boost(t: u32) -> (r: u32)
    requires
        t <= 1000,
    ensures
        r == starfield_boost_spec(t as int),
        1000 <= r <= 101_000,
{
    assert(t * t <= 1_000_000) by (nonlinear_arith)
        requires
            t <= 1000,
    ;
    1000 + t * t / 10
}

/// The label of the warp node at index `i` of a level: letters from `A`.
pub open spec fn label_spec(i: int) -> char {
    if i == 0 { 'A' } else if i == 1 { 'B' } else { 'C' }
}

/// The label of the warp node at index `i` of a level.
pub fn label_of(i: usize) -> (c: char)
    requires
        i < NODES_PER_LEVEL,
    ensures
        c == label_spec(i as int),
{
    if i == 0 {
        'A'
    } else if i == 1 {
        'B'
    } else {
        'C'
    }
}

/// Lays out the warp nodes of a level at random: three, labelled from `A`,
/// each with a price sheet of its own, at rising angles that are at least
/// eighty degrees apart, each at its own distance from the origin.
pub fn spawn_nodes() -> (plan: Vec<NodePlacement>)
    ensures
        plan@.len() == NODES_PER_LEVEL,
        forall|i: int|
            0 <= i < plan@.len() ==> {
                &&& (#[trigger] plan@[i]).label == label_spec(i)
                &&& plan@[i].prices.wf()
                &&& 2 <= plan@[i].prices@.len() <= 3
                &&& NODE_NEAR <= plan@[i].distance < NODE_FAR
                &&& plan@[i].angle < FULL_CIRCLE
            },
        forall|i: int|
            0 <= i < plan@.len() - 1 ==> (#[trigger] plan@[i]).angle + LAYOUT_GAP <= plan@[i + 1].angle,
{
    let angles: Vec<u32> = random_circular_distribution(NODES_PER_LEVEL, LAYOUT_GAP, FULL_CIRCLE);
    let mut plan: Vec<NodePlacement> = Vec::new();
    let mut i: usize = 0;
    while i < NODES_PER_LEVEL as usize
        invariant
            i <= NODES_PER_LEVEL,
            angles@.len() == NODES_PER_LEVEL,
            plan@.len() == i,
            forall|k: int|
                0 <= k < i ==> {
                    &&& (#[trigger] plan@[k]).label == label_spec(k)
                    &&& plan@[k].prices.wf()
                    &&& 2 <= plan@[k].prices@.len() <= 3
                    &&& NODE_NEAR <= plan@[k].distance < NODE_FAR
                    &&& plan@[k].angle == angles@[k]
                },
        decreases NODES_PER_LEVEL - i,
    {
        let distance: u32 = random_below(NODE_NEAR, NODE_FAR);
        let prices: CommodityPrices = CommodityPrices::new_random();
        plan.push(NodePlacement { label: label_of(i), prices, angle: angles[i], distance });
        i = i + 1;
    }
    proof {
        assert forall|a: int| 0 <= a < plan@.len() implies (#[trigger] plan@[a]).angle < FULL_CIRCLE by {
            assert(angles@[a] + (NODES_PER_LEVEL - 1 - a) * LAYOUT_GAP < FULL_CIRCLE);
            assert((NODES_PER_LEVEL - 1 - a) * LAYOUT_GAP >= 0) by (nonlinear_arith)
                requires
                    0 <= a < NODES_PER_LEVEL,
            ;
        }
        assert forall|a: int| 0 <= a < plan@.len() - 1 implies (#[trigger] plan@[a]).angle + LAYOUT_GAP
            <= plan@[a + 1].angle by {
            assert(angles@[a + 1] >= angles@[a] + LAYOUT_GAP);
        }
    }
    plan
}

/// The cubic ease-out of `t` thousandths, in thousandths.
pub fn cubic_out(t: u32) -> (r: u32)
    requires
        t <= 1000,
    ensures
        r == cubic_out_spec(t as int),
        r <= 1000,
        t == 0 ==> r == 0,
        t == 1000 ==> r == 1000,
{
    let left: u64 = 1000 - t as u64;
    assert(left * left <= 1_000_000 && left * left * left <= 1_000_000_000) by (nonlinear_arith)
        requires
            0 <= left <= 1000,
    ;
    let cube: u64 = left * left * left;
    assert(t == 0 ==> cube == 1_000_000_000) by (nonlinear_arith)
        requires
            cube == left * left * left,
            left == 1000 - t,
    ;
    assert(t == 1000 ==> cube == 0) by (nonlinear_arith)
        requires
            cube == left * left * left,
            left == 1000 - t,
    ;
    (1000 - cube / 1_000_000) as u32
}

impl WarpAnimation {
    /// The timers are valid: one-shot, with a period.
    pub open spec fn wf(self) -> bool {
        &&& self.starfield_timer.wf() && self.starfield_timer.mode == TimerMode::Once
        &&& self.fade_out_timer.wf() && self.fade_out_timer.mode == TimerMode::Once
        &&& self.fade_dwell_timer.wf() && self.fade_dwell_timer.mode == TimerMode::Once
        &&& self.fade_in_timer.wf() && self.fade_in_timer.mode == TimerMode::Once
    }

    /// The timers before any warp: the approach timer ready, the others
    /// waiting.
    pub open spec fn initial() -> WarpAnimation {
        WarpAnimation {
            starfield_timer: fresh(APPROACH_PERIOD, TimerMode::Once),
            fade_out_timer: waiting(FADE_PERIOD),
            fade_dwell_timer: waiting(DWELL_PERIOD),
            fade_in_timer: waiting(FADE_PERIOD),
        }
    }

    /// The timers before any warp.
    pub fn new() -> (a: WarpAnimation)
        ensures
            a == Self::initial(),
            a.wf(),
    {
        let mut fade_out_timer = Timer::new(FADE_PERIOD, TimerMode::Once);
        fade_out_timer.pause();
        let mut fade_in_timer = Timer::new(FADE_PERIOD, TimerMode::Once);
        fade_in_timer.pause();
        let mut fade_dwell_timer = Timer::new(DWELL_PERIOD, TimerMode::Once);
        fade_dwell_timer.pause();
        WarpAnimation {
            starfield_timer: Timer::new(APPROACH_PERIOD, TimerMode::Once),
            fade_out_timer,
            fade_dwell_timer,
            fade_in_timer,
        }
    }

    /// Puts all four timers back to their inert state: paused, with no time
    /// elapsed.
    pub fn reset(&mut self)
        ensures
            *final(self) == rewound(*old(self)),
            at_rest(*final(self)),
            old(self).wf() ==> final(self).wf(),
    {
        self.starfield_timer.pause();
        self.fade_out_timer.pause();
        self.fade_out_timer.reset();
        self.fade_in_timer.pause();
        self.fade_in_timer.reset();
        self.fade_dwell_timer.pause();
        self.fade_dwell_timer.reset();
        self.starfield_timer.reset();
    }

    /// Whether the timers are valid.
    pub fn is_valid(&self) -> (r: bool)
        ensures
            r == self.wf(),
    {
        self.starfield_timer.is_valid() && self.starfield_timer.mode == TimerMode::Once
            && self.fade_out_timer.is_valid() && self.fade_out_timer.mode == TimerMode::Once
            && self.fade_dwell_timer.is_valid() && self.fade_dwell_timer.mode == TimerMode::Once
            && self.fade_in_timer.is_valid() && self.fade_in_timer.mode == TimerMode::Once
    }

    /// One tick in the warping mode: advances the approach, the fade-out and
    /// the dwell, each of which starts the next when it ends, and reports
    /// what the world is to do.
    pub fn warp(&mut self, delta: u64) -> (r: WarpOutcome)
        requires
            old(self).wf(),
        ensures
            final(self).wf(),
            *final(self) == warp_spec(*old(self), delta),
            r == warp_outcome(*final(self)),
            r.opacity matches Some(o) ==> o <= OPAQUE,
    {
        let mut outcome = WarpOutcome { overlay_spawned: false, opacity: None, arrived: false };
        self.starfield_timer.tick(delta);
        if self.starfield_timer.just_finished() {
            self.fade_out_timer.unpause();
            outcome.overlay_spawned = true;
        }
        self.fade_out_timer.tick(delta);
        if self.fade_out_timer.just_finished() {
            self.fade_dwell_timer.unpause();
            outcome.opacity = Some(OPAQUE);
        } else if !self.fade_out_timer.paused() && !self.fade_out_timer.finished() {
            outcome.opacity = Some(cubic_out(self.fade_out_timer.fraction()));
        }
        self.fade_dwell_timer.tick(delta);
        if self.fade_dwell_timer.just_finished() {
            self.fade_in_timer.unpause();
            outcome.arrived = true;
        }
        outcome
    }

    /// One tick of the fade-in: advances it and, when it ends, asks for the
    /// overlay to be removed and puts all four timers back to their inert
    /// state: paused, with no time elapsed.
    pub fn end_warp(&mut self, delta: u64) -> (r: FadeOutcome)
        requires
            old(self).wf(),
        ensures
            final(self).wf(),
            *final(self) == end_warp_spec(*old(self), delta),
            r == fade_outcome(tick_spec(old(self).fade_in_timer, delta)),
            r.overlay_destroyed <==> tick_spec(old(self).fade_in_timer, delta).fired(),
            r.overlay_destroyed ==> at_rest(*final(self)),
            r.opacity matches Some(o) ==> o <= OPAQUE,
    {
        self.fade_in_timer.tick(delta);
        if self.fade_in_timer.just_finished() {
            self.reset();
            FadeOutcome { overlay_destroyed: true, opacity: None }
        } else if !self.fade_in_timer.paused() && !self.fade_in_timer.finished() {
            FadeOutcome {
                overlay_destroyed: false,
                opacity: Some(cubic_out(self.fade_in_timer.fraction_left())),
            }
        } else {
            FadeOutcome { overlay_destroyed: false, opacity: None }
        }
    }
}

} // verus!
