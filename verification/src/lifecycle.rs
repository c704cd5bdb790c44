use vstd::prelude::*;
use crate::queue::{evicted_handles, surviving_entries, timestamps_sorted, ArtifactHandle,
    TimedQueue};

verus! {

/// The retention policy: an artifact is retired once its age reaches this
/// many milliseconds of the host's monotonic clock.
pub const MAX_AGE_MILLIS: u64 = 15_000;

/// Owns the two artifact queues — one for artifacts created at setup, one
/// for artifacts created by ongoing advancement — and applies the same age
/// policy to both every tick. The two queues are never merged; each keeps
/// its own FIFO order.
pub struct LifecycleManager {
    seed_queue: TimedQueue,
    advance_queue: TimedQueue,
}

impl LifecycleManager {
    /// The entries of the queue for setup-time artifacts.
    pub closed spec fn seed_entries(&self) -> Seq<(u64, u64)> {
        self.seed_queue@
    }

    /// The entries of the queue for artifacts created by advancement.
    pub closed spec fn advance_entries(&self) -> Seq<(u64, u64)> {
        self.advance_queue@
    }

    pub open spec fn wf(&self) -> bool {
        timestamps_sorted(self.seed_entries()) && timestamps_sorted(self.advance_entries())
    }

    pub fn new() -> (m: LifecycleManager)
        ensures
            m.wf(),
            m.seed_entries().len() == 0,
            m.advance_entries().len() == 0,
    {
        LifecycleManager { seed_queue: TimedQueue::new(), advance_queue: TimedQueue::new() }
    }

    /// Record a setup-time artifact.
    pub fn register_seed(&mut self, handle: ArtifactHandle, now: u64)
        requires
            old(self).wf(),
            old(self).seed_entries().len() > 0 ==> old(self).seed_entries().last().1 <= now,
        ensures
            final(self).wf(),
            final(self).seed_entries() == old(self).seed_entries().push((handle, now)),
            final(self).advance_entries() == old(self).advance_entries(),
    {
        self.seed_queue.register(handle, now);
    }

    /// Record an artifact created by trajectory advancement.
    pub fn register_advancement(&mut self, handle: ArtifactHandle, now: u64)
        requires
            old(self).wf(),
            old(self).advance_entries().len() > 0 ==> old(self).advance_entries().last().1
                <= now,
        ensures
            final(self).wf(),
            final(self).advance_entries() == old(self).advance_entries().push((handle, now)),
            final(self).seed_entries() == old(self).seed_entries(),
    {
        self.advance_queue.register(handle, now);
    }

    /// Record one advancement artifact per handle, all at the same clock
    /// reading, in order.
    pub fn register_advancements(&mut self, handles: &Vec<ArtifactHandle>, now: u64)
        requires
            old(self).wf(),
            old(self).advance_entries().len() > 0 ==> old(self).advance_entries().last().1
                <= now,
        ensures
            final(self).wf(),
            final(self).seed_entries() == old(self).seed_entries(),
            final(self).advance_entries().len() == old(self).advance_entries().len()
                + handles@.len(),
            forall|k: int|
                0 <= k < old(self).advance_entries().len() ==> final(self).advance_entries()[k]
                    == old(self).advance_entries()[k],
            forall|k: int|
                0 <= k < handles@.len() ==> final(self).advance_entries()[old(
                    self,
                ).advance_entries().len() + k] == (handles@[k], now),
            final(self).advance_entries().len() > 0 ==> final(self).advance_entries().last().1
                <= now,
    {
        let n = handles.len();
        let mut i: usize = 0;
        while i < n
            invariant
                i <= n,
                n == handles@.len(),
                self.wf(),
                self.seed_entries() == old(self).seed_entries(),
                self.advance_entries().len() == old(self).advance_entries().len() + i,
                forall|k: int|
                    0 <= k < old(self).advance_entries().len() ==> self.advance_entries()[k]
                        == old(self).advance_entries()[k],
                forall|k: int|
                    0 <= k < i ==> self.advance_entries()[old(self).advance_entries().len() + k]
                        == (handles@[k], now),
                self.advance_entries().len() > 0 ==> self.advance_entries().last().1 <= now,
            decreases n - i,
        {
            self.advance_queue.register(handles[i], now);
            i += 1;
        }
    }

    /// Evict from both queues under the same cutoff and return the union of
    /// the collected handles, setup-time artifacts first, each group in its
    /// queue's FIFO order.
    pub fn evict_expired(&mut self, now: u64, max_age: u64) -> (evicted: Vec<ArtifactHandle>)
        requires
            old(self).wf(),
        ensures
            final(self).wf(),
            evicted@ == evicted_handles(old(self).seed_entries(), now, max_age)
                + evicted_handles(old(self).advance_entries(), now, max_age),
            final(self).seed_entries() == surviving_entries(
                old(self).seed_entries(),
                now,
                max_age,
            ),
            final(self).advance_entries() == surviving_entries(
                old(self).advance_entries(),
                now,
                max_age,
            ),
    {
        let mut evicted = self.seed_queue.evict_expired(now, max_age);
        let more = self.advance_queue.evict_expired(now, max_age);
        let ghost first = evicted@;
        let ghost target = first + more@;
        let n = more.len();
        let mut i: usize = 0;
        while i < n
            invariant
                i <= n,
                n == more@.len(),
                target == first + more@,
                evicted@ == target.take(first.len() + i),
            decreases n - i,
        {
            proof {
                let k = first.len() + i;
                assert(target[k] == more@[i as int]);
                assert(target.take(k + 1) =~= target.take(k).push(more@[i as int]));
            }
            evicted.push(more[i]);
            i += 1;
        }
        proof {
            assert(target.take(target.len() as int) =~= target);
        }
        evicted
    }

    pub fn seed_queue_len(&self) -> (n: usize)
        ensures
            n == self.seed_entries().len(),
    {
        self.seed_queue.len()
    }

    pub fn advance_queue_len(&self) -> (n: usize)
        ensures
            n == self.advance_entries().len(),
    {
        self.advance_queue.len()
    }
}

} // verus!
