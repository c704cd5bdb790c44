use vstd::prelude::*;
use crate::camera::{spec_mean, CameraTracker};
use crate::integrator::spec_advance;
use crate::lifecycle::{LifecycleManager, MAX_AGE_MILLIS};
use crate::point::Point3;
use crate::queue::{evicted_handles, lemma_eviction_prefix, surviving_entries,
    timestamps_sorted, ArtifactHandle};
use crate::trajectory::{ConfigurationError, TrajectorySet};

verus! {

/// Each trajectory's current last point, in particle-index order.
pub open spec fn latest_of(h: Seq<Seq<Point3>>) -> Seq<Point3> {
    h.map(|_i: int, t: Seq<Point3>| t.last())
}

/// What one tick hands back to the host: the new point of every particle,
/// for the host to materialize; the handles whose artifacts must be
/// destroyed; and the camera aim target, computed from the pre-advance
/// positions.
pub struct TickReport {
    pub new_points: Vec<(usize, Point3)>,
    pub evicted: Vec<ArtifactHandle>,
    pub aim: Point3,
}

/// The whole simulation state, owned explicitly rather than kept in ambient
/// globals: every trajectory, the artifact lifecycle bookkeeping, the camera
/// tracker, and the clock reading of the most recent tick.
pub struct SimulationState {
    trajectories: TrajectorySet,
    lifecycle: LifecycleManager,
    camera: CameraTracker,
    clock: u64,
    ticks: Ghost<nat>,
}

impl SimulationState {
    /// All particle histories.
    pub closed spec fn histories(&self) -> Seq<Seq<Point3>> {
        self.trajectories@
    }

    /// The bookkeeping entries for setup-time artifacts.
    pub closed spec fn seed_artifacts(&self) -> Seq<(u64, u64)> {
        self.lifecycle.seed_entries()
    }

    /// The bookkeeping entries for artifacts created by advancement.
    pub closed spec fn advance_artifacts(&self) -> Seq<(u64, u64)> {
        self.lifecycle.advance_entries()
    }

    /// The aim value most recently handed to the host.
    pub closed spec fn held_aim(&self) -> Point3 {
        self.camera.held_aim()
    }

    /// The clock reading of the most recent tick (zero right after setup).
    pub closed spec fn last_clock(&self) -> u64 {
        self.clock
    }

    /// How many ticks have run since setup.
    pub closed spec fn ticks(&self) -> nat {
        self.ticks@
    }

    pub open spec fn wf(&self) -> bool {
        &&& self.histories().len() > 0
        &&& forall|i: int|
            0 <= i < self.histories().len() ==> self.histories()[i].len() == 1 + self.ticks()
        &&& timestamps_sorted(self.seed_artifacts())
        &&& timestamps_sorted(self.advance_artifacts())
        &&& (self.seed_artifacts().len() > 0 ==> self.seed_artifacts().last().1
            <= self.last_clock())
        &&& (self.advance_artifacts().len() > 0 ==> self.advance_artifacts().last().1
            <= self.last_clock())
    }

    /// Set up the simulation: seed one trajectory per point and record every
    /// seed artifact at timestamp zero. Rejects an empty particle set.
    pub fn new(seed_points: &Vec<Point3>, seed_handles: &Vec<ArtifactHandle>) -> (r: Result<
        SimulationState,
        ConfigurationError,
    >)
        requires
            seed_handles@.len() == seed_points@.len(),
        ensures
            seed_points@.len() == 0 ==> r == Err::<SimulationState, ConfigurationError>(
                ConfigurationError::NoParticles,
            ),
            seed_points@.len() > 0 ==> ({
                &&& r matches Ok(s)
                &&& s.wf()
                &&& s.ticks() == 0
                &&& s.last_clock() == 0
                &&& s.histories().len() == seed_points@.len()
                &&& forall|i: int|
                    0 <= i < seed_points@.len() ==> s.histories()[i] == seq![seed_points@[i]]
                &&& s.seed_artifacts().len() == seed_points@.len()
                &&& forall|i: int|
                    0 <= i < seed_points@.len() ==> s.seed_artifacts()[i] == (
                        seed_handles@[i],
                        0u64,
                    )
                &&& s.advance_artifacts().len() == 0
                &&& s.held_aim() == (Point3 { x: 0i64, y: 0i64, z: 0i64 })
            }),
    {
        let mut trajectories = TrajectorySet::new();
        match trajectories.seed(seed_points) {
            Err(e) => {
                return Err(e);
            },
            Ok(()) => {},
        }
        let mut lifecycle = LifecycleManager::new();
        let n = seed_handles.len();
        let mut i: usize = 0;
        while i < n
            invariant
                i <= n,
                n == seed_handles@.len(),
                lifecycle.wf(),
                lifecycle.advance_entries().len() == 0,
                lifecycle.seed_entries().len() == i,
                forall|j: int|
                    0 <= j < i ==> lifecycle.seed_entries()[j] == (seed_handles@[j], 0u64),
            decreases n - i,
        {
            proof {
                if lifecycle.seed_entries().len() > 0 {
                    assert(lifecycle.seed_entries().last() == (seed_handles@[i - 1], 0u64));
                }
            }
            lifecycle.register_seed(seed_handles[i], 0);
            i += 1;
        }
        Ok(
            SimulationState {
                trajectories,
                lifecycle,
                camera: CameraTracker::new(Point3::origin()),
                clock: 0,
                ticks: Ghost(0),
            },
        )
    }

    /// One tick at clock reading `now`, with one fresh artifact handle per
    /// particle for the artifacts the host will materialize at the new
    /// points. The aim is computed from the pre-advance positions; eviction
    /// uses the fixed age policy and runs before this tick's registrations.
    pub fn tick(&mut self, now: u64, new_handles: &Vec<ArtifactHandle>) -> (report: TickReport)
        requires
            old(self).wf(),
            new_handles@.len() == old(self).histories().len(),
            now >= old(self).last_clock(),
        ensures
            final(self).wf(),
            final(self).ticks() == old(self).ticks() + 1,
            final(self).last_clock() == now,
            report.aim == spec_mean(latest_of(old(self).histories())),
            final(self).held_aim() == report.aim,
            final(self).histories().len() == old(self).histories().len(),
            forall|i: int|
                0 <= i < old(self).histories().len() ==> final(self).histories()[i] == old(self).histories()[i].push(spec_advance(old(self).histories()[i].last())),
            report.new_points@.len() == old(self).histories().len(),
            forall|i: int|
                0 <= i < report.new_points@.len() ==> report.new_points@[i].0 == i
                    && report.new_points@[i].1 == spec_advance(
                    old(self).histories()[i].last(),
                ),
            report.evicted@ == evicted_handles(old(self).seed_artifacts(), now, MAX_AGE_MILLIS)
                + evicted_handles(old(self).advance_artifacts(), now, MAX_AGE_MILLIS),
            final(self).seed_artifacts() == surviving_entries(
                old(self).seed_artifacts(),
                now,
                MAX_AGE_MILLIS,
            ),
            final(self).advance_artifacts().len() == surviving_entries(
                old(self).advance_artifacts(),
                now,
                MAX_AGE_MILLIS,
            ).len() + new_handles@.len(),
            forall|j: int|
                0 <= j < surviving_entries(old(self).advance_artifacts(), now, MAX_AGE_MILLIS).len()
                    ==> final(self).advance_artifacts()[j] == surviving_entries(
                    old(self).advance_artifacts(),
                    now,
                    MAX_AGE_MILLIS,
                )[j],
            forall|j: int|
                0 <= j < new_handles@.len() ==> final(self).advance_artifacts()[surviving_entries(
                    old(self).advance_artifacts(),
                    now,
                    MAX_AGE_MILLIS,
                ).len() + j] == (new_handles@[j], now),
    {
        proof {
            assert(self.trajectories.wf());
        }
        let latest = self.trajectories.latest_points();
        proof {
            assert(latest@ =~= latest_of(self.trajectories@));
        }
        let aim = self.camera.aim(&latest);
        let evicted = self.lifecycle.evict_expired(now, MAX_AGE_MILLIS);
        let ghost survivors = self.lifecycle.advance_entries();
        proof {
            lemma_eviction_prefix(old(self).seed_artifacts(), now, MAX_AGE_MILLIS);
            lemma_eviction_prefix(old(self).advance_artifacts(), now, MAX_AGE_MILLIS);
            let k1 = evicted_handles(old(self).seed_artifacts(), now, MAX_AGE_MILLIS).len() as int;
            let k2 = evicted_handles(
                old(self).advance_artifacts(),
                now,
                MAX_AGE_MILLIS,
            ).len() as int;
            assert(0 <= k1 <= old(self).seed_artifacts().len() && self.lifecycle.seed_entries()
                == old(self).seed_artifacts().skip(k1));
            assert(0 <= k2 <= old(self).advance_artifacts().len() && survivors == old(self).advance_artifacts().skip(k2));
            lemma_last_of_suffix(old(self).seed_artifacts(), self.lifecycle.seed_entries());
            lemma_last_of_suffix(old(self).advance_artifacts(), survivors);
        }
        let new_points = self.trajectories.advance_all();
        self.lifecycle.register_advancements(new_handles, now);
        self.clock = now;
        self.ticks = Ghost(self.ticks@ + 1);
        TickReport { new_points, evicted, aim }
    }

    pub fn particle_count(&self) -> (n: usize)
        ensures
            n == self.histories().len(),
    {
        self.trajectories.len()
    }

    pub fn trajectory_len(&self, i: usize) -> (n: usize)
        requires
            i < self.histories().len(),
        ensures
            n == self.histories()[i as int].len(),
    {
        self.trajectories.trajectory_len(i)
    }

    pub fn point_at(&self, i: usize, j: usize) -> (p: Point3)
        requires
            i < self.histories().len(),
            j < self.histories()[i as int].len(),
        ensures
            p == self.histories()[i as int][j as int],
    {
        self.trajectories.point_at(i, j)
    }

    pub fn current_aim(&self) -> (p: Point3)
        ensures
            p == self.held_aim(),
    {
        self.camera.current()
    }

    pub fn seed_artifact_count(&self) -> (n: usize)
        ensures
            n == self.seed_artifacts().len(),
    {
        self.lifecycle.seed_queue_len()
    }

    pub fn advance_artifact_count(&self) -> (n: usize)
        ensures
            n == self.advance_artifacts().len(),
    {
        self.lifecycle.advance_queue_len()
    }
}

/// After eviction the queue holds a suffix of what it held before, so a
/// non-empty remainder still ends in the original last entry.
proof fn lemma_last_of_suffix(before: Seq<(u64, u64)>, after: Seq<(u64, u64)>)
    requires
        exists|k: int| 0 <= k <= before.len() && after == before.skip(k),
    ensures
        after.len() > 0 ==> after.last() == before.last(),
{
    let k = choose|k: int| 0 <= k <= before.len() && after == before.skip(k);
    if after.len() > 0 {
        assert(after.last() == before.skip(k)[after.len() - 1]);
        assert(before.skip(k)[after.len() - 1] == before[k + after.len() - 1]);
    }
}


/// History growth: a well-formed simulation that has run `N` ticks holds
/// exactly `1 + N` points in every trajectory — histories only ever grow,
/// one point per particle per tick.
pub proof fn lemma_history_growth(s: &SimulationState)
    requires
        s.wf(),
    ensures
        forall|i: int|
            0 <= i < s.histories().len() ==> s.histories()[i].len() == 1 + s.ticks(),
{
}

} // verus!
