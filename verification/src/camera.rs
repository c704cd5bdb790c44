use vstd::prelude::*;
use vstd::arithmetic::div_mod::{lemma_div_is_ordered, lemma_div_multiples_vanish};
use crate::num::div_floor;
use crate::point::Point3;

verus! {

pub open spec fn sum_x(s: Seq<Point3>) -> int
    decreases s.len(),
{
    if s.len() == 0 {
        0
    } else {
        sum_x(s.drop_last()) + s.last().x
    }
}

pub open spec fn sum_y(s: Seq<Point3>) -> int
    decreases s.len(),
{
    if s.len() == 0 {
        0
    } else {
        sum_y(s.drop_last()) + s.last().y
    }
}

pub open spec fn sum_z(s: Seq<Point3>) -> int
    decreases s.len(),
{
    if s.len() == 0 {
        0
    } else {
        sum_z(s.drop_last()) + s.last().z
    }
}

/// The componentwise arithmetic mean of a non-empty set of points, each
/// quotient rounding toward negative infinity.
pub open spec fn spec_mean(s: Seq<Point3>) -> Point3
    recommends
        s.len() > 0,
{
    Point3 {
        x: (sum_x(s) / s.len() as int) as i64,
        y: (sum_y(s) / s.len() as int) as i64,
        z: (sum_z(s) / s.len() as int) as i64,
    }
}

/// The mean of values drawn from a range stays in that range.
proof fn lemma_avg_bounds(sum: int, n: int)
    requires
        1 <= n,
        n * (i64::MIN as int) <= sum <= n * (i64::MAX as int),
    ensures
        i64::MIN as int <= sum / n <= i64::MAX as int,
{
    lemma_div_is_ordered(n * (i64::MIN as int), sum, n);
    lemma_div_is_ordered(sum, n * (i64::MAX as int), n);
    lemma_div_multiples_vanish(i64::MIN as int, n);
    lemma_div_multiples_vanish(i64::MAX as int, n);
}

/// Derives the camera's aim point: the center of mass of the particles'
/// current positions. Holds the last aim so that an empty particle set
/// leaves the target where it was instead of producing an undefined mean.
pub struct CameraTracker {
    last_aim: Point3,
}

impl CameraTracker {
    /// The aim value the tracker currently holds.
    pub closed spec fn held_aim(&self) -> Point3 {
        self.last_aim
    }

    pub fn new(initial: Point3) -> (c: CameraTracker)
        ensures
            c.held_aim() == initial,
    {
        CameraTracker { last_aim: initial }
    }

    /// The aim value most recently computed (or the initial one).
    pub fn current(&self) -> (p: Point3)
        ensures
            p == self.held_aim(),
    {
        self.last_aim
    }

    /// Recompute the aim as the componentwise mean of `points`. If `points`
    /// is empty the previously held aim is returned unchanged — the empty
    /// mean is undefined and must never reach the host.
    pub fn aim(&mut self, points: &Vec<Point3>) -> (target: Point3)
        ensures
            points@.len() == 0 ==> target == old(self).held_aim() && *final(self) == *old(self),
            points@.len() > 0 ==> target == spec_mean(points@),
            final(self).held_aim() == target,
    {
        let n = points.len();
        if n == 0 {
            return self.last_aim;
        }
        let mut sx: i128 = 0;
        let mut sy: i128 = 0;
        let mut sz: i128 = 0;
        let mut i: usize = 0;
        while i < n
            invariant
                i <= n,
                n == points@.len(),
                sx == sum_x(points@.take(i as int)),
                sy == sum_y(points@.take(i as int)),
                sz == sum_z(points@.take(i as int)),
                -(i as int) * 0x8000_0000_0000_0000 <= sx <= (i as int) * 0x7fff_ffff_ffff_ffff,
                -(i as int) * 0x8000_0000_0000_0000 <= sy <= (i as int) * 0x7fff_ffff_ffff_ffff,
                -(i as int) * 0x8000_0000_0000_0000 <= sz <= (i as int) * 0x7fff_ffff_ffff_ffff,
            decreases n - i,
        {
            let p = points[i];
            proof {
                assert(points@.take(i + 1).drop_last() =~= points@.take(i as int));
                assert(points@.take(i + 1).last() == points@[i as int]);
            }
            sx = sx + p.x as i128;
            sy = sy + p.y as i128;
            sz = sz + p.z as i128;
            i += 1;
        }
        proof {
            assert(points@.take(n as int) =~= points@);
            lemma_avg_bounds(sx as int, n as int);
            lemma_avg_bounds(sy as int, n as int);
            lemma_avg_bounds(sz as int, n as int);
        }
        let target = Point3 {
            x: div_floor(sx, n as i128) as i64,
            y: div_floor(sy, n as i128) as i64,
            z: div_floor(sz, n as i128) as i64,
        };
        self.last_aim = target;
        target
    }
}

} // verus!
