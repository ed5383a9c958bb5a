use warp_sim::commodity::{CommodityKind, CommodityPrices};
use warp_sim::components::FuelTank;
use warp_sim::geometry::Vec2;
use warp_sim::warp_node::{
    cubic_out, label_of, node_in_range, spawn_nodes, GameState, Travel, TravelOutcome,
    WarpAnimation, WarpNode,
};

fn v(x: i32, y: i32) -> Vec2 {
    Vec2 { x, y }
}

fn node(id: u64, x: i32, y: i32, water: u32) -> WarpNode {
    let mut prices = CommodityPrices::new();
    prices.set(CommodityKind::Water, water);
    WarpNode { id, position: v(x, y), prices }
}

fn full_tank() -> FuelTank {
    FuelTank { current: 40, max: 40 }
}

/// The timers after a cycle: all four paused at zero.
fn at_rest() -> WarpAnimation {
    let mut a = WarpAnimation::new();
    a.starfield_timer.pause();
    a
}

fn quiet() -> TravelOutcome {
    TravelOutcome { overlay_spawned: false, overlay_destroyed: false, opacity: None, arrived: false }
}

fn warping() -> Travel {
    let mut t = Travel::new();
    let nodes = vec![node(1, 0, 0, 12)];
    assert_eq!(t.start_warp(&full_tank(), v(0, 0), &nodes), Some(0));
    t
}

#[test]
fn cubic_ease_out_values() {
    assert_eq!(cubic_out(0), 0);
    assert_eq!(cubic_out(100), 271);
    assert_eq!(cubic_out(333), 704);
    assert_eq!(cubic_out(500), 875);
    assert_eq!(cubic_out(1000), 1000);
}

#[test]
fn cubic_ease_out_rises() {
    let mut last: u32 = 0;
    for t in 0..=1000 {
        let now: u32 = cubic_out(t);
        assert!(now >= last);
        assert!(now <= 1000);
        last = now;
    }
}

#[test]
fn new_travel_is_idle() {
    let t = Travel::new();
    assert_eq!(t.state, GameState::Exploring);
    assert!(t.warped_to.is_none());
    assert_eq!(t.animation, WarpAnimation::new());
    assert!(!t.animation.starfield_timer.paused());
    assert!(t.animation.fade_out_timer.paused());
    assert!(t.animation.fade_dwell_timer.paused());
    assert!(t.animation.fade_in_timer.paused());
    assert_eq!(t.animation.starfield_timer.duration(), 3000);
    assert_eq!(t.animation.fade_out_timer.duration(), 3000);
    assert_eq!(t.animation.fade_dwell_timer.duration(), 1000);
    assert_eq!(t.animation.fade_in_timer.duration(), 3000);
}

#[test]
fn idle_travel_stays_idle() {
    let mut t = Travel::new();
    assert_eq!(t.tick(100_000), quiet());
    assert_eq!(t.state, GameState::Exploring);
    assert_eq!(t.animation, WarpAnimation::new());
}

#[test]
fn warp_needs_a_full_tank() {
    let mut t = Travel::new();
    let nodes = vec![node(1, 0, 0, 12)];
    let almost = FuelTank { current: 39, max: 40 };
    assert_eq!(t.start_warp(&almost, v(0, 0), &nodes), None);
    assert_eq!(t.state, GameState::Exploring);
    assert!(t.warped_to.is_none());
}

#[test]
fn warp_needs_a_node_in_range() {
    let mut t = Travel::new();
    let nodes = vec![node(1, 80_000, 0, 12), node(2, 0, -90_000, 13)];
    assert_eq!(t.start_warp(&full_tank(), v(0, 0), &nodes), None);
    assert_eq!(t.state, GameState::Exploring);
    assert_eq!(t.start_warp(&full_tank(), v(0, 0), &Vec::new()), None);
    assert_eq!(node_in_range(&nodes, v(1, 0)), Some(0));
    assert_eq!(node_in_range(&nodes, v(0, -10_001)), Some(1));
}

#[test]
fn warp_keeps_the_prices_of_the_first_node_in_range() {
    let mut t = Travel::new();
    let nodes = vec![node(1, 500_000, 0, 12), node(2, 30_000, 40_000, 7), node(3, 0, 0, 14)];
    assert_eq!(t.start_warp(&full_tank(), v(0, 0), &nodes), Some(1));
    assert_eq!(t.state, GameState::Warping);
    let kept = t.warped_to.as_ref().unwrap();
    assert_eq!(kept.0.multiplier(CommodityKind::Water), 7);
    assert_eq!(t.start_warp(&full_tank(), v(0, 0), &nodes), None);
    assert_eq!(t.state, GameState::Warping);
}

#[test]
fn phases_come_in_order() {
    let mut t = warping();
    assert_eq!(t.tick(2999), quiet());
    assert_eq!(t.state, GameState::Warping);
    assert!(t.animation.fade_out_timer.paused());

    let o = t.tick(1);
    assert_eq!(
        o,
        TravelOutcome { overlay_spawned: true, overlay_destroyed: false, opacity: Some(0), arrived: false }
    );
    assert!(t.animation.starfield_timer.finished());
    assert!(!t.animation.fade_out_timer.paused());
    assert!(t.animation.fade_dwell_timer.paused());

    let o = t.tick(1499);
    assert_eq!(o, TravelOutcome { opacity: Some(875), ..quiet() });
    assert_eq!(t.tick(1000), TravelOutcome { opacity: Some(cubic_out(833)), ..quiet() });

    let o = t.tick(500);
    assert_eq!(o, TravelOutcome { opacity: Some(1000), ..quiet() });
    assert!(t.animation.fade_out_timer.finished());
    assert!(!t.animation.fade_dwell_timer.paused());
    assert!(!t.animation.fade_dwell_timer.finished());
    assert!(t.animation.fade_in_timer.paused());
    assert_eq!(t.state, GameState::Warping);

    assert_eq!(t.tick(499), quiet());
    assert_eq!(t.state, GameState::Warping);

    let o = t.tick(1);
    assert_eq!(o, TravelOutcome { arrived: true, ..quiet() });
    assert_eq!(t.state, GameState::Exploring);
    assert!(!t.animation.fade_in_timer.paused());
    assert!(!t.animation.fade_in_timer.finished());

    let o = t.tick(1500);
    assert_eq!(o, TravelOutcome { opacity: Some(875), ..quiet() });
    assert_eq!(t.state, GameState::Exploring);

    let o = t.tick(1500);
    assert_eq!(o, TravelOutcome { overlay_destroyed: true, ..quiet() });
    assert_eq!(t.state, GameState::Exploring);
    assert_eq!(t.animation, at_rest());

    assert_eq!(t.tick(10_000), quiet());
    assert_eq!(t.state, GameState::Exploring);
    assert_eq!(t.animation, at_rest());
}

#[test]
fn mode_flips_once_per_cycle() {
    let mut t = warping();
    let mut flips: u32 = 0;
    let mut arrivals: u32 = 0;
    let mut removals: u32 = 0;
    let mut last = t.state;
    for _ in 0..2000 {
        let o = t.tick(16);
        if o.arrived {
            arrivals += 1;
            assert!(!t.animation.fade_in_timer.paused());
            assert!(t.animation.fade_dwell_timer.finished());
        }
        if o.overlay_destroyed {
            removals += 1;
            assert_eq!(last, GameState::Exploring);
        }
        if t.state != last {
            flips += 1;
            assert!(o.arrived);
            assert_eq!(t.state, GameState::Exploring);
        }
        last = t.state;
    }
    assert_eq!(flips, 1);
    assert_eq!(arrivals, 1);
    assert_eq!(removals, 1);
    assert_eq!(t.animation, at_rest());
}

#[test]
fn a_long_tick_runs_through_the_warp() {
    let mut t = warping();
    let o = t.tick(3000);
    assert_eq!(
        o,
        TravelOutcome { overlay_spawned: true, overlay_destroyed: false, opacity: Some(1000), arrived: true }
    );
    assert_eq!(t.state, GameState::Exploring);
    let o = t.tick(3000);
    assert_eq!(o, TravelOutcome { overlay_destroyed: true, ..quiet() });
    assert_eq!(t.animation, at_rest());
}

#[test]
fn a_new_warp_restarts_the_cycle() {
    let mut t = warping();
    t.tick(3000);
    t.tick(1000);
    assert_eq!(t.state, GameState::Exploring);
    assert!(!t.animation.fade_in_timer.paused());
    let nodes = vec![node(5, 10, 10, 6)];
    assert_eq!(t.start_warp(&full_tank(), v(0, 0), &nodes), Some(0));
    assert_eq!(t.state, GameState::Warping);
    assert_eq!(t.animation, WarpAnimation::new());
    assert_eq!(t.warped_to.as_ref().unwrap().0.multiplier(CommodityKind::Water), 6);
}

#[test]
fn all_four_timers_are_inert_after_the_fade_in() {
    let mut t = warping();
    assert!(t.tick(3000).arrived);
    assert!(!t.tick(2999).overlay_destroyed);
    assert!(!t.animation.fade_in_timer.paused());
    assert!(t.tick(1).overlay_destroyed);
    assert_eq!(t.state, GameState::Exploring);
    let a = t.animation;
    for timer in [a.starfield_timer, a.fade_out_timer, a.fade_dwell_timer, a.fade_in_timer] {
        assert!(timer.paused());
        assert_eq!(timer.elapsed(), 0);
        assert!(!timer.finished());
        assert!(!timer.just_finished());
    }
    assert!(t.is_valid());
}

#[test]
fn a_warp_after_a_cycle_starts_the_approach_timer() {
    let mut t = warping();
    t.tick(3000);
    t.tick(3000);
    assert!(t.animation.starfield_timer.paused());
    let nodes = vec![node(5, 10, 10, 6)];
    assert_eq!(t.start_warp(&full_tank(), v(0, 0), &nodes), Some(0));
    assert!(!t.animation.starfield_timer.paused());
    assert_eq!(t.animation.starfield_timer.elapsed(), 0);
    assert_eq!(t.animation, WarpAnimation::new());
    assert_eq!(t.tick(2999), quiet());
    assert!(t.tick(1).overlay_spawned);
}

#[test]
fn travel_is_valid_in_every_phase() {
    let mut t = Travel::new();
    assert!(t.is_valid());
    assert!(t.animation.is_valid());
    let nodes = vec![node(1, 0, 0, 12)];
    t.start_warp(&full_tank(), v(0, 0), &nodes);
    for _ in 0..1000 {
        assert!(t.is_valid());
        t.tick(16);
    }
    assert!(t.is_valid());
    t.animation.fade_out_timer.unpause();
    assert!(!t.is_valid());
    let mut broken = Travel::new();
    broken.animation.fade_in_timer.set_duration(1);
    broken.animation.fade_in_timer.duration = 0;
    assert!(!broken.is_valid());
}

#[test]
fn sale_is_handed_out_once() {
    let mut t = warping();
    let sale = t.take_sale();
    assert_eq!(sale.unwrap().0.multiplier(CommodityKind::Water), 12);
    assert!(t.take_sale().is_none());
    assert_eq!(t.state, GameState::Warping);
}

#[test]
fn animation_reset_rewinds_every_timer() {
    let mut a = WarpAnimation::new();
    a.warp(3000);
    a.end_warp(10);
    a.reset();
    assert_eq!(a, at_rest());
}

#[test]
fn nodes_are_laid_out_at_random() {
    for _ in 0..100 {
        let plan = spawn_nodes();
        assert_eq!(plan.len(), 3);
        assert_eq!(plan[0].label, 'A');
        assert_eq!(plan[1].label, 'B');
        assert_eq!(plan[2].label, 'C');
        for p in &plan {
            assert!(p.distance >= 2_600_000 && p.distance < 3_000_000);
            assert!(p.angle < 360);
            assert!(p.prices.is_valid());
            assert!(p.prices.entries().len() == 2 || p.prices.entries().len() == 3);
        }
        assert!(plan[0].angle + 80 <= plan[1].angle);
        assert!(plan[1].angle + 80 <= plan[2].angle);
    }
    assert_eq!(label_of(2), 'C');
}
