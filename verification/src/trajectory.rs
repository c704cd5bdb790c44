use vstd::prelude::*;
use crate::integrator::{spec_advance, LorenzIntegrator};
use crate::point::Point3;

verus! {

/// Raised only at setup time: the particle set was seeded twice, or with no
/// points at all. Fatal to startup, never produced mid-run.
#[derive(Clone, Copy, PartialEq, Eq, Structural, Debug)]
pub enum ConfigurationError {
    AlreadySeeded,
    NoParticles,
}

/// The chronological history of one particle: every point it has visited,
/// oldest first. Append-only; a history is never pruned even after the
/// artifacts rendered for it expire.
pub struct Trajectory {
    points: Vec<Point3>,
}

impl View for Trajectory {
    type V = Seq<Point3>;

    closed spec fn view(&self) -> Seq<Point3> {
        self.points@
    }
}

impl Trajectory {
    /// A trajectory always holds at least the point it was seeded with.
    pub open spec fn wf(&self) -> bool {
        self@.len() >= 1
    }

    pub fn new(start: Point3) -> (t: Trajectory)
        ensures
            t@ == seq![start],
    {
        let t = Trajectory { points: vec![start] };
        proof {
            assert(t@ =~= seq![start]);
        }
        t
    }

    /// The most recent point of this trajectory.
    pub fn last_point(&self) -> (p: Point3)
        requires
            self.wf(),
        ensures
            p == self@.last(),
    {
        self.points[self.points.len() - 1]
    }

    /// Append one Euler step: the new point is the integrator applied to the
    /// current last point. Nothing already recorded moves or disappears.
    pub fn advance_step(&mut self) -> (p: Point3)
        requires
            old(self).wf(),
        ensures
            final(self)@ == old(self)@.push(spec_advance(old(self)@.last())),
            p == spec_advance(old(self)@.last()),
    {
        let last = self.last_point();
        let next = LorenzIntegrator::advance(last);
        self.points.push(next);
        next
    }

    pub fn len(&self) -> (n: usize)
        ensures
            n == self@.len(),
    {
        self.points.len()
    }

    pub fn point_at(&self, i: usize) -> (p: Point3)
        requires
            i < self@.len(),
        ensures
            p == self@[i as int],
    {
        self.points[i]
    }
}

/// All particles' histories. The particle count is fixed once `seed`
/// succeeds, and a particle's index is its stable identity.
pub struct TrajectorySet {
    trajectories: Vec<Trajectory>,
}

impl View for TrajectorySet {
    type V = Seq<Seq<Point3>>;

    closed spec fn view(&self) -> Seq<Seq<Point3>> {
        self.trajectories@.map(|_i: int, t: Trajectory| t@)
    }
}

impl TrajectorySet {
    /// Every trajectory holds at least its seed point.
    pub open spec fn wf(&self) -> bool {
        forall|i: int| 0 <= i < self@.len() ==> self@[i].len() >= 1
    }

    /// The view indexes into the views of the stored trajectories.
    proof fn lemma_view_index(&self)
        ensures
            self@.len() == self.trajectories@.len(),
            forall|j: int|
                0 <= j < self@.len() ==> self@[j] == #[trigger] self.trajectories@[j]@,
    {
    }

    pub fn new() -> (s: TrajectorySet)
        ensures
            s@.len() == 0,
    {
        TrajectorySet { trajectories: Vec::new() }
    }

    /// Create one single-point trajectory per seed point. Succeeds exactly
    /// once, and only with at least one point.
    pub fn seed(&mut self, points: &Vec<Point3>) -> (r: Result<(), ConfigurationError>)
        ensures
            old(self)@.len() > 0 ==> r == Err::<(), ConfigurationError>(
                ConfigurationError::AlreadySeeded,
            ) && *final(self) == *old(self),
            old(self)@.len() == 0 && points@.len() == 0 ==> r == Err::<(), ConfigurationError>(
                ConfigurationError::NoParticles,
            ) && *final(self) == *old(self),
            old(self)@.len() == 0 && points@.len() > 0 ==> r == Ok::<(), ConfigurationError>(())
                && final(self)@.len() == points@.len() && (forall|i: int|
                0 <= i < points@.len() ==> final(self)@[i] == seq![points@[i]]),
            old(self).wf() ==> final(self).wf(),
    {
        if self.trajectories.len() > 0 {
            return Err(ConfigurationError::AlreadySeeded);
        }
        if points.len() == 0 {
            return Err(ConfigurationError::NoParticles);
        }
        let n = points.len();
        let mut i: usize = 0;
        while i < n
            invariant
                0 < n == points@.len(),
                i <= n,
                self@.len() == i,
                forall|j: int| 0 <= j < i ==> self@[j] == seq![points@[j]],
            decreases n - i,
        {
            proof {
                self.lemma_view_index();
            }
            self.trajectories.push(Trajectory::new(points[i]));
            proof {
                self.lemma_view_index();
            }
            i += 1;
        }
        Ok(())
    }

    /// Advance every trajectory by one Euler step; return each new point
    /// tagged with its particle's index, in index order.
    pub fn advance_all(&mut self) -> (out: Vec<(usize, Point3)>)
        requires
            old(self).wf(),
        ensures
            final(self).wf(),
            final(self)@.len() == old(self)@.len(),
            forall|i: int|
                0 <= i < old(self)@.len() ==> final(self)@[i] == old(self)@[i].push(
                    spec_advance(old(self)@[i].last()),
                ),
            out@.len() == old(self)@.len(),
            forall|i: int|
                0 <= i < out@.len() ==> out@[i].0 == i && out@[i].1 == spec_advance(
                    old(self)@[i].last(),
                ),
    {
        let n = self.trajectories.len();
        let mut out: Vec<(usize, Point3)> = Vec::new();
        let mut i: usize = 0;
        while i < n
            invariant
                i <= n,
                n == old(self)@.len(),
                self@.len() == n,
                old(self).wf(),
                forall|j: int|
                    i <= j < n ==> self@[j] == old(self)@[j],
                forall|j: int|
                    0 <= j < i ==> self@[j] == old(self)@[j].push(
                        spec_advance(old(self)@[j].last()),
                    ),
                out@.len() == i,
                forall|j: int|
                    0 <= j < i ==> out@[j].0 == j && out@[j].1 == spec_advance(
                        old(self)@[j].last(),
                    ),
            decreases n - i,
        {
            proof {
                self.lemma_view_index();
            }
            let p = self.trajectories[i].advance_step();
            proof {
                self.lemma_view_index();
            }
            out.push((i, p));
            i += 1;
        }
        out
    }

    /// A read-only snapshot of each trajectory's current last point, in
    /// particle-index order.
    pub fn latest_points(&self) -> (pts: Vec<Point3>)
        requires
            self.wf(),
        ensures
            pts@.len() == self@.len(),
            forall|i: int| 0 <= i < self@.len() ==> pts@[i] == self@[i].last(),
    {
        let n = self.trajectories.len();
        let mut pts: Vec<Point3> = Vec::new();
        let mut i: usize = 0;
        while i < n
            invariant
                i <= n,
                n == self@.len(),
                self.wf(),
                pts@.len() == i,
                forall|j: int| 0 <= j < i ==> pts@[j] == self@[j].last(),
            decreases n - i,
        {
            proof {
                self.lemma_view_index();
            }
            pts.push(self.trajectories[i].last_point());
            i += 1;
        }
        pts
    }

    pub fn len(&self) -> (n: usize)
        ensures
            n == self@.len(),
    {
        self.trajectories.len()
    }

    pub fn trajectory_len(&self, i: usize) -> (n: usize)
        requires
            i < self@.len(),
        ensures
            n == self@[i as int].len(),
    {
        self.trajectories[i].len()
    }

    pub fn point_at(&self, i: usize, j: usize) -> (p: Point3)
        requires
            i < self@.len(),
            j < self@[i as int].len(),
        ensures
            p == self@[i as int][j as int],
    {
        self.trajectories[i].point_at(j)
    }
}

} // verus!
