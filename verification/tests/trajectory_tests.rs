use lorenz_sim::integrator::LorenzIntegrator;
use lorenz_sim::point::{Point3, SCALE};
use lorenz_sim::trajectory::{ConfigurationError, TrajectorySet};

#[test]
fn seed_with_no_points_is_rejected() {
    let mut set = TrajectorySet::new();
    let r = set.seed(&Vec::new());
    assert_eq!(r, Err(ConfigurationError::NoParticles));
    assert_eq!(set.len(), 0);
}

#[test]
fn seed_twice_is_rejected() {
    let mut set = TrajectorySet::new();
    assert_eq!(set.seed(&vec![Point3::new(1, 2, 3)]), Ok(()));
    let again = set.seed(&vec![Point3::new(4, 5, 6)]);
    assert_eq!(again, Err(ConfigurationError::AlreadySeeded));
    assert_eq!(set.len(), 1);
    assert_eq!(set.point_at(0, 0), Point3::new(1, 2, 3));
}

#[test]
fn histories_grow_by_one_per_advance() {
    let mut set = TrajectorySet::new();
    let seeds = vec![
        Point3::new(0, 0, 0),
        Point3::new(SCALE, SCALE, SCALE),
        Point3::new(-SCALE, 2 * SCALE, 3 * SCALE),
    ];
    set.seed(&seeds).unwrap();
    for _ in 0..10 {
        set.advance_all();
    }
    for i in 0..3 {
        assert_eq!(set.trajectory_len(i), 11);
    }
}

#[test]
fn advance_all_appends_the_integrator_step() {
    let mut set = TrajectorySet::new();
    let seed = Point3::new(SCALE, SCALE, SCALE);
    set.seed(&vec![seed]).unwrap();
    let out = set.advance_all();
    assert_eq!(out.len(), 1);
    assert_eq!(out[0].0, 0);
    assert_eq!(out[0].1, LorenzIntegrator::advance(seed));
    assert_eq!(set.point_at(0, 0), seed);
    assert_eq!(set.point_at(0, 1), LorenzIntegrator::advance(seed));
    let latest = set.latest_points();
    assert_eq!(latest, vec![LorenzIntegrator::advance(seed)]);
}
