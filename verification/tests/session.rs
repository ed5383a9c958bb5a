use warp_sim::basic_laser;
use warp_sim::commodity::{self, Commodity, CommodityKind, CommodityPrices};
use warp_sim::direction_indicator::{DirectionIndicator, DirectionIndicatorSettings};
use warp_sim::enemy::{self, SpawnController};
use warp_sim::fuel;
use warp_sim::geometry::Vec2;
use warp_sim::kinematics::{self, InputSnapshot};
use warp_sim::player::{self, Level, Player};
use warp_sim::scanner::{Scanner, Target};
use warp_sim::spatial::SpatialIndex;
use warp_sim::warp_node::{GameState, Travel, TravelOutcome, WarpNode};

struct Session {
    player: Player,
    camera: Vec2,
    level: Level,
    spawner: SpawnController,
    scanner: Scanner,
    travel: Travel,
    index: SpatialIndex,
    input: InputSnapshot,
    arrivals: u32,
}

fn v(x: i32, y: i32) -> Vec2 {
    Vec2 { x, y }
}

fn session() -> Session {
    let mut prices = CommodityPrices::new();
    prices.set(CommodityKind::Water, 12);
    let mut s = Session {
        player: Player::new(),
        camera: v(0, 0),
        level: Level::new(),
        spawner: SpawnController::new(),
        scanner: Scanner::new(),
        travel: Travel::new(),
        index: SpatialIndex::new(),
        input: InputSnapshot {
            turn_left: false,
            turn_right: false,
            thrust_forward: true,
            thrust_reverse: false,
        },
        arrivals: 0,
    };
    s.level.commodities.push(Commodity {
        id: 1,
        position: v(0, 1_000_000),
        kind: CommodityKind::Water,
        amount: 10,
    });
    s.scanner.commodities.push(1);
    s.level.nodes.push(WarpNode { id: 2, position: v(0, 2_000_000), prices });
    s.scanner.warp_nodes.push(2);
    s
}

fn frame(s: &mut Session, delta: u64) -> TravelOutcome {
    let facing = v(0, 1000);
    match s.travel.state {
        GameState::Exploring => {
            let (angular, thruster) = kinematics::player_input(&s.input);
            s.player.motion.angular_velocity = angular;
            s.player.motion.thruster = thruster;
            s.player.position = s.player.motion.integrate(s.player.position, facing, delta);

            enemy::move_enemy(&mut s.level.enemies, s.player.position, &s.index);
            let places: Vec<Vec2> = s.level.enemies.iter().map(|e| e.position).collect();
            s.index.rebuild(&places);
            for e in s.level.enemies.iter_mut() {
                e.position = kinematics::movement(e.position, e.velocity, delta);
            }
            for b in s.level.bullets.iter_mut() {
                b.position = kinematics::movement(b.position, b.velocity, delta);
            }
            for p in s.level.pellets.iter_mut() {
                p.position = kinematics::movement(p.position, p.velocity, delta);
            }
            if let Some(bullet) = s.player.laser.fire(delta, s.player.position, facing) {
                s.level.bullets.push(bullet);
            }
            basic_laser::collide(&mut s.level.bullets, &mut s.level.enemies);
            basic_laser::despawn(&mut s.level.bullets);

            let live = s.level.live_enemies();
            if let Some(e) = s.spawner.spawn_enemy(delta, live, v(0, 1), s.player.position) {
                s.level.enemies.push(e);
            }
            s.spawner.ramp_up(delta);
            let events = enemy::despawn(&mut s.level.enemies, s.player.position);
            fuel::spawn(&events, &mut s.level.pellets);
            fuel::movement(&mut s.level.pellets, s.player.position, &mut s.player.fuel);
            commodity::pickup(&mut s.level.commodities, s.player.position, &mut s.player.inventory);

            let mut targets: Vec<Target> = Vec::new();
            targets.extend(s.level.commodities.iter().map(|c| Target { id: c.id, position: c.position }));
            targets.extend(s.level.nodes.iter().map(|n| Target { id: n.id, position: n.position }));
            let min = s.camera.saturating_sub(v(640_000, 360_000));
            let max = s.camera.saturating_add(v(640_000, 360_000));
            let mut revealed = s.scanner.proximity(&targets, min, max);
            revealed.extend(s.scanner.update(delta, s.player.position, &targets));
            for id in revealed {
                s.level.indicators.push(DirectionIndicator {
                    target: id,
                    settings: DirectionIndicatorSettings { color: 0, label: None },
                });
            }
            let left = s.level.commodities.len();
            s.scanner.unpause(left);
            s.travel.start_warp(&s.player.fuel, s.player.position, &s.level.nodes);
        }
        GameState::Warping => {
            s.player.position =
                kinematics::warp_movement(s.player.position, s.player.motion.velocity, delta);
        }
    }
    kinematics::move_camera(&mut s.camera, s.player.position);
    let outcome = s.travel.tick(delta);
    if outcome.arrived {
        s.arrivals += 1;
        player::complete_travel(
            &mut s.travel,
            &mut s.player,
            &mut s.level,
            &mut s.spawner,
            &mut s.scanner,
        );
    }
    outcome
}

#[test]
fn a_whole_trip() {
    let mut s = session();
    let mut peak: u64 = 0;
    let mut kills: usize = 0;
    let mut picked_up = false;
    for _ in 0..20_000 {
        let pellets_before = s.level.pellets.len();
        frame(&mut s, 16);
        let speed: u64 = s.player.motion.velocity.length_squared();
        assert!(speed <= 100_000 * 100_000);
        peak = peak.max(speed);
        assert!(s.level.enemies.len() <= 500);
        assert!(s.player.fuel.current <= s.player.fuel.max);
        if s.level.pellets.len() > pellets_before {
            kills += s.level.pellets.len() - pellets_before;
        }
        if s.player.inventory.quantity(CommodityKind::Water) == 10 {
            picked_up = true;
        }
        if s.arrivals > 0 {
            break;
        }
        // Fill the tank by hand once the ship nears the node.
        if s.player.position.y > 1_900_000 {
            s.player.fuel.current = s.player.fuel.max;
        }
    }
    assert_eq!(peak, 100_000 * 100_000);
    assert!(picked_up);
    assert!(kills > 0);
    assert_eq!(s.arrivals, 1);
    assert_eq!(s.player.credits, 12);
    assert_eq!(s.player.position, v(0, 0));
    assert_eq!(s.player.fuel.current, 0);
    assert_eq!(s.player.inventory.quantity(CommodityKind::Water), 0);
    assert!(s.level.enemies.is_empty());
    assert!(s.level.indicators.is_empty());
    assert_eq!(s.spawner.spawn_timer.duration(), 2000);
    assert_eq!(s.travel.state, GameState::Exploring);

    let mut removed: u32 = 0;
    for _ in 0..400 {
        s.input.thrust_forward = false;
        if frame(&mut s, 16).overlay_destroyed {
            removed += 1;
        }
    }
    assert_eq!(removed, 1);
    assert_eq!(s.arrivals, 1);
}
