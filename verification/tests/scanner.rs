use warp_sim::geometry::Vec2;
use warp_sim::scanner::{find_target, nearest_candidate, Scanner, Target, SCAN_PERIOD};

fn v(x: i32, y: i32) -> Vec2 {
    Vec2 { x, y }
}

fn target(id: u64, x: i32, y: i32) -> Target {
    Target { id, position: v(x, y) }
}

#[test]
fn new_scanner_is_empty() {
    let s = Scanner::new();
    assert!(s.commodities.is_empty());
    assert!(s.warp_nodes.is_empty());
    assert_eq!(s.timer.duration(), 45_000);
    assert!(!s.timer.paused());
}

#[test]
fn nearest_candidate_is_revealed_first() {
    let mut s = Scanner::new();
    s.commodities = vec![1, 2];
    let targets = vec![target(1, 200_000, 0), target(2, 0, 50_000)];
    assert_eq!(s.update(SCAN_PERIOD - 1, v(0, 0), &targets), None);
    assert_eq!(s.update(1, v(0, 0), &targets), Some(2));
    assert_eq!(s.commodities, vec![1]);
    assert!(!s.timer.paused());
    assert_eq!(s.update(SCAN_PERIOD, v(0, 0), &targets), Some(1));
    assert!(s.commodities.is_empty());
    assert!(s.timer.paused());
    assert_eq!(s.timer.elapsed(), 0);
}

#[test]
fn ties_go_to_the_first_in_the_pool() {
    let mut s = Scanner::new();
    s.commodities = vec![7, 8, 9];
    let targets = vec![target(9, 0, 300), target(8, 300, 0), target(7, 0, -300)];
    assert_eq!(s.update(SCAN_PERIOD, v(0, 0), &targets), Some(7));
    assert_eq!(s.commodities, vec![9, 8]);
    assert_eq!(s.update(SCAN_PERIOD, v(0, 0), &targets), Some(9));
    assert_eq!(s.commodities, vec![8]);
}

#[test]
fn warp_nodes_follow_once_commodities_are_gone() {
    let mut s = Scanner::new();
    s.commodities = vec![1];
    s.warp_nodes = vec![10, 11];
    let targets = vec![target(1, 900, 0), target(10, 5000, 0), target(11, 100, 0)];
    assert_eq!(s.update(SCAN_PERIOD, v(0, 0), &targets), Some(1));
    assert!(s.timer.paused());
    assert_eq!(s.warp_nodes, vec![10, 11]);
    assert_eq!(s.update(SCAN_PERIOD, v(0, 0), &targets), None);
    s.unpause(0);
    assert!(!s.timer.paused());
    assert_eq!(s.update(SCAN_PERIOD, v(0, 0), &targets), Some(11));
    assert_eq!(s.warp_nodes, vec![10]);
    assert!(!s.timer.paused());
}

#[test]
fn collected_commodity_is_skipped() {
    let mut s = Scanner::new();
    s.commodities = vec![1, 2];
    let targets = vec![target(2, 700, 700)];
    assert_eq!(s.update(SCAN_PERIOD, v(0, 0), &targets), Some(2));
    assert_eq!(s.commodities, vec![1]);
    assert_eq!(s.update(SCAN_PERIOD, v(0, 0), &targets), None);
    assert_eq!(s.commodities, vec![1]);
    assert!(!s.timer.paused());
}

#[test]
fn unpause_waits_for_the_commodities() {
    let mut s = Scanner::new();
    s.warp_nodes = vec![10];
    s.timer.pause();
    s.unpause(2);
    assert!(s.timer.paused());
    s.unpause(0);
    assert!(!s.timer.paused());
    let mut empty = Scanner::new();
    empty.timer.pause();
    empty.unpause(0);
    assert!(empty.timer.paused());
}

#[test]
fn proximity_reveals_what_is_in_view() {
    let mut s = Scanner::new();
    s.commodities = vec![1, 2, 3];
    s.warp_nodes = vec![10, 11];
    let targets = vec![
        target(1, 0, 0),
        target(2, 640_000, 0),
        target(3, -639_999, 359_999),
        target(10, 5, 5),
        target(11, 0, -360_000),
    ];
    s.timer.tick(1234);
    let revealed = s.proximity(&targets, v(-640_000, -360_000), v(640_000, 360_000));
    assert_eq!(revealed, vec![1, 3, 10]);
    assert_eq!(s.commodities, vec![2]);
    assert_eq!(s.warp_nodes, vec![11]);
    assert_eq!(s.timer.elapsed(), 1234);
}

#[test]
fn proximity_ignores_what_is_gone() {
    let mut s = Scanner::new();
    s.commodities = vec![1];
    let revealed = s.proximity(&Vec::new(), v(-10, -10), v(10, 10));
    assert!(revealed.is_empty());
    assert_eq!(s.commodities, vec![1]);
}

#[test]
fn reset_forgets_everything() {
    let mut s = Scanner::new();
    s.commodities = vec![1];
    s.warp_nodes = vec![2];
    s.timer.tick(100);
    s.timer.pause();
    s.reset();
    assert!(s.commodities.is_empty());
    assert!(s.warp_nodes.is_empty());
    assert_eq!(s.timer.elapsed(), 0);
    assert!(!s.timer.paused());
}

#[test]
fn lookup_finds_the_first_match() {
    let targets = vec![target(1, 1, 1), target(2, 2, 2), target(1, 3, 3)];
    assert_eq!(find_target(&targets, 1), Some(v(1, 1)));
    assert_eq!(find_target(&targets, 2), Some(v(2, 2)));
    assert_eq!(find_target(&targets, 3), None);
    assert_eq!(nearest_candidate(&vec![3, 2, 1], &targets, v(0, 0)), Some(2));
    assert_eq!(nearest_candidate(&vec![3], &targets, v(0, 0)), None);
}
