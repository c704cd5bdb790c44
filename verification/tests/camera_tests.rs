use lorenz_sim::camera::CameraTracker;
use lorenz_sim::point::{Point3, SCALE};

#[test]
fn aim_is_center_of_mass() {
    let mut tracker = CameraTracker::new(Point3::new(0, 0, 0));
    let points = vec![Point3::new(0, 0, 0), Point3::new(2 * SCALE, 2 * SCALE, 2 * SCALE)];
    let target = tracker.aim(&points);
    assert_eq!(target, Point3::new(SCALE, SCALE, SCALE));
    assert_eq!(tracker.current(), target);
}

#[test]
fn aim_of_empty_set_keeps_previous_value() {
    let initial = Point3::new(5, 6, 7);
    let mut tracker = CameraTracker::new(initial);
    let target = tracker.aim(&Vec::new());
    assert_eq!(target, initial);
    assert_eq!(tracker.current(), initial);

    let points = vec![Point3::new(30, 30, 30)];
    let moved = tracker.aim(&points);
    assert_eq!(moved, Point3::new(30, 30, 30));
    let held = tracker.aim(&Vec::new());
    assert_eq!(held, moved);
}

#[test]
fn aim_quotients_round_toward_negative_infinity() {
    let mut tracker = CameraTracker::new(Point3::new(0, 0, 0));
    // Mean of 0 and 1 floors to 0; mean of 0 and -1 floors to -1.
    let points = vec![Point3::new(1, -1, 3), Point3::new(0, 0, 0)];
    let target = tracker.aim(&points);
    assert_eq!(target, Point3::new(0, -1, 1));
}

#[test]
fn aim_of_single_point_is_that_point() {
    let mut tracker = CameraTracker::new(Point3::new(0, 0, 0));
    let p = Point3::new(-4 * SCALE, 9, 123_456_789);
    let target = tracker.aim(&vec![p]);
    assert_eq!(target, p);
}
