use vstd::prelude::*;

verus! {

/// An opaque token for a host-rendered object. The core never interprets a
/// handle; it only hands it back when the artifact's lifetime ends.
pub type ArtifactHandle = u64;

/// An artifact created at `ts` has reached its age budget at `now`: its age
/// is at least `max_age` (inclusive boundary).
pub open spec fn expired(ts: u64, now: u64, max_age: u64) -> bool {
    ts + max_age <= now
}

/// The handles an eviction pass at `now` collects from entries `s`: the
/// longest prefix of entries whose timestamps have expired, in queue order.
pub open spec fn evicted_handles(s: Seq<(u64, u64)>, now: u64, max_age: u64) -> Seq<u64>
    decreases s.len(),
{
    if s.len() > 0 && expired(s[0].1, now, max_age) {
        seq![s[0].0] + evicted_handles(s.skip(1), now, max_age)
    } else {
        Seq::empty()
    }
}

/// The entries an eviction pass at `now` leaves in place: everything after
/// the evicted prefix.
pub open spec fn surviving_entries(s: Seq<(u64, u64)>, now: u64, max_age: u64) -> Seq<
    (u64, u64),
>
    decreases s.len(),
{
    if s.len() > 0 && expired(s[0].1, now, max_age) {
        surviving_entries(s.skip(1), now, max_age)
    } else {
        s
    }
}

/// Creation timestamps never decrease along the queue.
pub open spec fn timestamps_sorted(s: Seq<(u64, u64)>) -> bool {
    forall|i: int, j: int| 0 <= i <= j < s.len() ==> s[i].1 <= s[j].1
}

/// Eviction takes a contiguous prefix of a timestamp-sorted queue, never an
/// interior element, and it takes an entry exactly when that entry's age at
/// `now` has reached `max_age`.
pub proof fn lemma_eviction_prefix(s: Seq<(u64, u64)>, now: u64, max_age: u64)
    requires
        timestamps_sorted(s),
    ensures
        evicted_handles(s, now, max_age).len() <= s.len(),
        surviving_entries(s, now, max_age) == s.skip(
            evicted_handles(s, now, max_age).len() as int,
        ),
        forall|i: int|
            0 <= i < s.len() ==> (expired(s[i].1, now, max_age) <==> i < evicted_handles(
                s,
                now,
                max_age,
            ).len()),
        forall|i: int|
            0 <= i < evicted_handles(s, now, max_age).len() ==> evicted_handles(
                s,
                now,
                max_age,
            )[i] == s[i].0,
    decreases s.len(),
{
    let ev = evicted_handles(s, now, max_age);
    if s.len() > 0 && expired(s[0].1, now, max_age) {
        let tail = s.skip(1);
        assert(forall|i: int| 0 <= i < tail.len() ==> tail[i] == s[i + 1]);
        assert(timestamps_sorted(tail));
        lemma_eviction_prefix(tail, now, max_age);
        let evt = evicted_handles(tail, now, max_age);
        assert(ev == seq![s[0].0] + evt);
        assert(surviving_entries(s, now, max_age) =~= s.skip(ev.len() as int)) by {
            assert(surviving_entries(s, now, max_age) == tail.skip(evt.len() as int));
        }
        assert(forall|i: int| 1 <= i < s.len() ==> s[i].1 == tail[i - 1].1);
        assert(forall|i: int| 1 <= i < ev.len() ==> ev[i] == evt[i - 1]);
    } else {
        assert(ev.len() == 0);
        assert(s.skip(0) =~= s);
        if s.len() > 0 {
            assert forall|i: int| 0 <= i < s.len() implies !expired(s[i].1, now, max_age) by {
                assert(s[0].1 <= s[i].1);
            }
        }
    }
}

/// A FIFO of `(handle, creation timestamp)` pairs for artifacts with a
/// bounded lifetime. Timestamps are non-decreasing in insertion order, so an
/// eviction pass only ever needs to look at the head.
pub struct TimedQueue {
    entries: Vec<(u64, u64)>,
}

impl View for TimedQueue {
    type V = Seq<(u64, u64)>;

    closed spec fn view(&self) -> Seq<(u64, u64)> {
        self.entries@
    }
}

impl TimedQueue {
    pub open spec fn wf(&self) -> bool {
        timestamps_sorted(self@)
    }

    pub fn new() -> (q: TimedQueue)
        ensures
            q@.len() == 0,
            q.wf(),
    {
        TimedQueue { entries: Vec::new() }
    }

    /// Append an artifact at the tail. The clock is monotonic: `now` must
    /// not precede the timestamp already at the tail.
    pub fn register(&mut self, handle: ArtifactHandle, now: u64)
        requires
            old(self).wf(),
            old(self)@.len() > 0 ==> old(self)@.last().1 <= now,
        ensures
            final(self)@ == old(self)@.push((handle, now)),
            final(self).wf(),
    {
        proof {
            assert forall|i: int| 0 <= i < self@.len() implies self@[i].1 <= now by {
                assert(self@[i].1 <= self@[self@.len() - 1].1);
            }
        }
        self.entries.push((handle, now));
    }

    /// Pop every expired entry off the head, oldest first, and return their
    /// handles for the host to destroy. An entry is returned exactly when
    /// its age at `now` has reached `max_age`; everything else stays, in
    /// order.
    pub fn evict_expired(&mut self, now: u64, max_age: u64) -> (evicted: Vec<ArtifactHandle>)
        requires
            old(self).wf(),
        ensures
            final(self).wf(),
            evicted@ == evicted_handles(old(self)@, now, max_age),
            final(self)@ == surviving_entries(old(self)@, now, max_age),
            evicted@.len() <= old(self)@.len(),
            final(self)@ == old(self)@.skip(evicted@.len() as int),
            forall|i: int|
                0 <= i < old(self)@.len() ==> (expired(old(self)@[i].1, now, max_age) <==> i
                    < evicted@.len()),
            forall|i: int| 0 <= i < evicted@.len() ==> evicted@[i] == old(self)@[i].0,
    {
        proof {
            lemma_eviction_prefix(old(self)@, now, max_age);
        }
        let mut evicted: Vec<ArtifactHandle> = Vec::new();
        while self.entries.len() > 0 && now >= max_age && self.entries[0].1 <= now - max_age
            invariant
                timestamps_sorted(self@),
                evicted@ + evicted_handles(self@, now, max_age) == evicted_handles(
                    old(self)@,
                    now,
                    max_age,
                ),
                surviving_entries(self@, now, max_age) == surviving_entries(
                    old(self)@,
                    now,
                    max_age,
                ),
            decreases self@.len(),
        {
            proof {
                let s = self@;
                let tail = s.skip(1);
                assert(forall|i: int| 0 <= i < tail.len() ==> tail[i] == s[i + 1]);
                assert(timestamps_sorted(tail));
                assert(s.remove(0) =~= tail);
                assert(evicted@.push(s[0].0) + evicted_handles(tail, now, max_age) =~= evicted@
                    + (seq![s[0].0] + evicted_handles(tail, now, max_age)));
            }
            let head = self.entries.remove(0);
            evicted.push(head.0);
        }
        proof {
            assert(evicted_handles(self@, now, max_age) == Seq::<u64>::empty());
            assert(surviving_entries(self@, now, max_age) == self@);
            assert(evicted@ + Seq::<u64>::empty() =~= evicted@);
        }
        evicted
    }

    pub fn len(&self) -> (n: usize)
        ensures
            n == self@.len(),
    {
        self.entries.len()
    }

    pub fn entry_at(&self, i: usize) -> (e: (u64, u64))
        requires
            i < self@.len(),
        ensures
            e == self@[i as int],
    {
        self.entries[i]
    }
}

} // verus!
