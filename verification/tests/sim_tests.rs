use lorenz_sim::lifecycle::MAX_AGE_MILLIS;
use lorenz_sim::point::{Point3, SCALE};
use lorenz_sim::sim::SimulationState;
use lorenz_sim::trajectory::ConfigurationError;

/// Flooring division, as the core's fixed-point arithmetic defines it.
fn floor_div(a: i128, b: i128) -> i128 {
    let q = a / b;
    if a % b != 0 && (a < 0) != (b < 0) {
        q - 1
    } else {
        q
    }
}

/// The closed-form Euler iteration, written out independently.
fn euler_step(p: Point3) -> Point3 {
    let (x, y, z) = (p.x as i128, p.y as i128, p.z as i128);
    let s = SCALE as i128;
    let dx = 10 * (y - x);
    let dy = floor_div(x * (25 * s - z), s) - y;
    let dz = floor_div(x * y, s) - floor_div(8 * z, 3);
    Point3::new(
        (x + floor_div(dx, 100)) as i64,
        (y + floor_div(dy, 100)) as i64,
        (z + floor_div(dz, 100)) as i64,
    )
}

#[test]
fn setup_with_no_particles_is_rejected() {
    let r = SimulationState::new(&Vec::new(), &Vec::new());
    assert!(matches!(r, Err(ConfigurationError::NoParticles)));
}

#[test]
fn first_tick_reports_pre_advance_aim() {
    let seeds = vec![Point3::new(0, 0, 0), Point3::new(SCALE, SCALE, SCALE)];
    let mut sim = SimulationState::new(&seeds, &vec![100, 101]).unwrap();
    let report = sim.tick(16, &vec![200, 201]);
    // The aim reflects the seed positions, not the advanced ones.
    let half = SCALE / 2;
    assert_eq!(report.aim, Point3::new(half, half, half));
    assert_eq!(sim.current_aim(), report.aim);
    assert_eq!(report.new_points.len(), 2);
    assert_eq!(report.new_points[0].0, 0);
    assert_eq!(report.new_points[1].0, 1);
    assert_eq!(report.new_points[0].1, euler_step(seeds[0]));
    assert_eq!(report.new_points[1].1, euler_step(seeds[1]));
    assert!(report.evicted.is_empty());
}

#[test]
fn hundred_tick_scenario() {
    let seeds = vec![Point3::new(0, 0, 0), Point3::new(SCALE, SCALE, SCALE)];
    let seed_handles = vec![100, 101];
    let mut sim = SimulationState::new(&seeds, &seed_handles).unwrap();
    assert_eq!(sim.particle_count(), 2);
    assert_eq!(sim.seed_artifact_count(), 2);

    // 100 ticks, 150 ms apart: simulated time reaches 15 s on the last one.
    let mut next_handle: u64 = 1_000;
    for t in 1..=100u64 {
        let now = t * 150;
        let handles = vec![next_handle, next_handle + 1];
        next_handle += 2;
        let report = sim.tick(now, &handles);
        if now < MAX_AGE_MILLIS {
            // Nothing may be retired before simulated time reaches 15 s.
            assert!(report.evicted.is_empty());
        } else {
            // At exactly 15 s the two seed artifacts (registered at time
            // zero) reach their age budget; nothing registered later has.
            assert_eq!(now, MAX_AGE_MILLIS);
            assert_eq!(report.evicted, seed_handles);
        }
    }

    // Every trajectory has grown to 1 + 100 points.
    assert_eq!(sim.trajectory_len(0), 101);
    assert_eq!(sim.trajectory_len(1), 101);

    // The second trajectory's first ten points match the closed-form
    // iteration.
    let mut expected = Point3::new(SCALE, SCALE, SCALE);
    for j in 0..10 {
        assert_eq!(sim.point_at(1, j), expected);
        expected = euler_step(expected);
    }

    // The degenerate particle at the origin never moves.
    assert_eq!(sim.point_at(0, 100), Point3::new(0, 0, 0));
}
