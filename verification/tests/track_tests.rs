use rl::fixed::Vec2;
use rl::mdp::MarkovDecisionProcess;
use rl::mountaincar::{Ground, MountainAction, MountainCar};
use rl::track::{BezierSegment, RockyRoad};

fn p(x: i64, y: i64) -> Vec2 {
    Vec2 { x, y }
}

// A segment whose control points are equally spaced along one
// direction has that constant direction as its velocity.
fn straight_segment() -> BezierSegment {
    BezierSegment {
        p0: p(0, 0),
        p1: p(400_000, 200_000),
        p2: p(800_000, 400_000),
        p3: p(1_200_000, 600_000),
    }
}

#[test]
fn straight_track_has_constant_slope() {
    let g = RockyRoad::new(vec![straight_segment()]);
    let v = g.velocity_at(500);
    assert_eq!(v, Vec2 { x: 1_200_000, y: 600_000 });
    assert_eq!(g.slope(0), 500);
    assert_eq!(g.slope(500), 500);
    assert_eq!(g.slope(999), 500);
}

#[test]
fn straight_track_arc_factor_matches_norm() {
    let g = RockyRoad::new(vec![straight_segment()]);
    // |v| = sqrt(1_200_000^2 + 600_000^2) = 1_341_640 (floor), and
    // the factor is 1_400_000 * 1000 / |v| rounded down.
    assert_eq!(g.derivivative(500), 1043);
}

#[test]
fn vertical_tangent_saturates_slope() {
    let g = RockyRoad::new(vec![BezierSegment {
        p0: p(0, 0),
        p1: p(0, 300_000),
        p2: p(0, 600_000),
        p3: p(0, 900_000),
    }]);
    assert_eq!(g.slope(500), 10_000_000);
}

#[test]
fn downhill_track_accelerates_a_coasting_car() {
    // A track sloping down to the right: the slope is negative, so
    // gravity pushes the coasting car towards larger positions.
    let g = RockyRoad::new(vec![BezierSegment {
        p0: p(0, 900_000),
        p1: p(400_000, 600_000),
        p2: p(800_000, 300_000),
        p3: p(1_200_000, 0),
    }]);
    assert!(g.slope(500) < 0);
    let mut e = MountainCar { pos: 300, speed: 0, ground: g };
    e.step(MountainAction::DoNothing, 1000).unwrap();
    assert!(e.speed > 0);
    assert!(e.pos > 300);
}

#[test]
fn track_parameter_clamps_at_the_ends() {
    let g = RockyRoad::new(vec![straight_segment()]);
    assert_eq!(g.slope(-50_000), g.slope(0));
    assert_eq!(g.slope(5_000_000), g.slope(1000));
}
