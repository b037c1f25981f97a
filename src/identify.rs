use vstd::prelude::*;
use std::collections::HashMap;
use crate::supervisor::{backoff_base_ms, reconnect_delay_ms, RECONNECT_JITTER_MS};

verus! {

/// One Identify lease handed out: its bucket and the time it was granted.
pub struct Grant {
    pub bucket: u64,
    pub at: u64,
}

/// No two grants of one bucket lie closer together than `spacing`.
pub open spec fn spaced(history: Seq<Grant>, spacing: u64) -> bool {
    forall|i: int, j: int|
        0 <= i < j < history.len() && (#[trigger] history[i]).bucket == (#[trigger] history[j]).bucket
            ==> history[j].at >= history[i].at + spacing
}

/// The bucket of a shard: shards share a bucket when their ids agree modulo
/// the identity's maximum concurrency.
pub open spec fn spec_bucket_of(shard_id: u64, max_concurrency: u64) -> u64
    recommends
        max_concurrency > 0,
{
    (shard_id % max_concurrency) as u64
}

/// Serializes the Identify handshakes of one bot identity: at most one lease
/// per bucket within each spacing interval, handed out first come, first served.
pub struct IdentifyCoordinator {
    max_concurrency: u64,
    spacing_ms: u64,
    /// Bucket to the time at which its current lease runs out.
    leases: HashMap<u64, u64>,
    /// Shards waiting for a lease, oldest first.
    waiting: Vec<u64>,
    history: Ghost<Seq<Grant>>,
}

impl IdentifyCoordinator {
    pub closed spec fn spec_max_concurrency(&self) -> u64 {
        self.max_concurrency
    }

    pub closed spec fn spec_spacing_ms(&self) -> u64 {
        self.spacing_ms
    }

    /// Every lease granted so far, in order.
    pub closed spec fn history(&self) -> Seq<Grant> {
        self.history@
    }

    /// Shards waiting for a lease, oldest first.
    pub closed spec fn spec_waiting(&self) -> Seq<u64> {
        self.waiting@
    }

    /// True when a lease for `bucket` may be granted at time `now`: no lease of
    /// the bucket is live, and the new lease's end is representable.
    pub closed spec fn grantable(&self, bucket: u64, now: u64) -> bool {
        &&& (!self.leases@.contains_key(bucket) || self.leases@[bucket] <= now)
        &&& now as int + self.spacing_ms as int <= u64::MAX as int
    }

    pub closed spec fn well_formed(&self) -> bool {
        &&& self.max_concurrency > 0
        &&& spaced(self.history@, self.spacing_ms)
        &&& forall|i: int|
            0 <= i < self.history@.len() ==> {
                let g = #[trigger] self.history@[i];
                &&& self.leases@.contains_key(g.bucket)
                &&& g.at + self.spacing_ms <= self.leases@[g.bucket]
            }
    }

    /// A coordinator with no lease granted and nobody waiting.
    pub fn new(max_concurrency: u64, spacing_ms: u64) -> (r: IdentifyCoordinator)
        requires
            max_concurrency > 0,
        ensures
            r.well_formed(),
            r.spec_max_concurrency() == max_concurrency,
            r.spec_spacing_ms() == spacing_ms,
            r.history() == Seq::<Grant>::empty(),
            r.spec_waiting() == Seq::<u64>::empty(),
            forall|b: u64, now: u64| now + spacing_ms <= u64::MAX ==> #[trigger] r.grantable(b, now),
    {
        IdentifyCoordinator {
            max_concurrency,
            spacing_ms,
            leases: HashMap::new(),
            waiting: Vec::new(),
            history: Ghost(Seq::empty()),
        }
    }

    /// The bucket that shard `shard_id` draws its leases from.
    pub fn bucket_of(&self, shard_id: u64) -> (r: u64)
        requires
            self.well_formed(),
        ensures
            r == spec_bucket_of(shard_id, self.spec_max_concurrency()),
            r < self.spec_max_concurrency(),
    {
        shard_id % self.max_concurrency
    }

    fn is_grantable(&self, bucket: u64, now: u64) -> (r: bool)
        ensures
            r == self.grantable(bucket, now),
    {
        if now > u64::MAX - self.spacing_ms {
            return false;
        }
        match self.leases.get(&bucket) {
            Some(end) => *end <= now,
            None => true,
        }
    }

    /// The lease primitive: grants `bucket` at time `now` when no lease of it
    /// is live, and reports whether it did. A granted lease lasts one spacing
    /// interval and is never released early.
    pub fn try_acquire(&mut self, bucket: u64, now: u64) -> (r: bool)
        requires
            old(self).well_formed(),
        ensures
            final(self).well_formed(),
            r == old(self).grantable(bucket, now),
            r ==> final(self).history() == old(self).history().push(Grant { bucket, at: now }),
            !r ==> final(self).history() == old(self).history(),
            !r ==> *final(self) == *old(self),
            r && old(self).spec_spacing_ms() > 0 ==> !final(self).grantable(bucket, now),
            final(self).spec_waiting() == old(self).spec_waiting(),
            final(self).spec_max_concurrency() == old(self).spec_max_concurrency(),
            final(self).spec_spacing_ms() == old(self).spec_spacing_ms(),
            forall|b: u64, t: u64| b != bucket ==> #[trigger] final(self).grantable(b, t) == old(self).grantable(b, t),
    {
        if !self.is_grantable(bucket, now) {
            return false;
        }
        let ghost h0 = self.history@;
        let ghost l0 = self.leases@;
        self.leases.insert(bucket, now + self.spacing_ms);
        self.history = Ghost(h0.push(Grant { bucket, at: now }));
        assert forall|i: int| 0 <= i < self.history@.len() implies {
            let g = #[trigger] self.history@[i];
            &&& self.leases@.contains_key(g.bucket)
            &&& g.at + self.spacing_ms <= self.leases@[g.bucket]
        } by {
            if i < h0.len() {
                assert(self.history@[i] == h0[i]);
            }
        }
        assert forall|i: int, j: int|
            0 <= i < j < self.history@.len() && (#[trigger] self.history@[i]).bucket
                == (#[trigger] self.history@[j]).bucket implies self.history@[j].at
            >= self.history@[i].at + self.spacing_ms by {
            assert(self.history@[i] == h0[i]);
            if j < h0.len() {
                assert(self.history@[j] == h0[j]);
            } else {
                assert(h0[i].at + self.spacing_ms <= l0[bucket]);
            }
        }
        true
    }

    /// Puts a shard at the back of the queue of shards waiting for a lease.
    pub fn request(&mut self, shard_id: u64)
        requires
            old(self).well_formed(),
        ensures
            final(self).well_formed(),
            final(self).spec_waiting() == old(self).spec_waiting().push(shard_id),
            final(self).history() == old(self).history(),
            final(self).spec_max_concurrency() == old(self).spec_max_concurrency(),
            final(self).spec_spacing_ms() == old(self).spec_spacing_ms(),
            forall|b: u64, t: u64| #[trigger] final(self).grantable(b, t) == old(self).grantable(b, t),
    {
        self.waiting.push(shard_id);
    }

    /// Grants a lease, at time `now`, to the first waiting shard whose bucket
    /// is free, removes it from the queue and returns it; a shard is never
    /// passed over by a later one of its own bucket. `None` when no waiting
    /// shard can be served.
    pub fn poll(&mut self, now: u64) -> (r: Option<u64>)
        requires
            old(self).well_formed(),
        ensures
            final(self).well_formed(),
            final(self).spec_max_concurrency() == old(self).spec_max_concurrency(),
            final(self).spec_spacing_ms() == old(self).spec_spacing_ms(),
            r is None ==> {
                &&& *final(self) == *old(self)
                &&& forall|j: int| 0 <= j < old(self).spec_waiting().len()
                    ==> !old(self).grantable(
                    spec_bucket_of(#[trigger] old(self).spec_waiting()[j], old(self).spec_max_concurrency()),
                    now,
                )
            },
            r matches Some(s) ==> exists|i: int| {
                &&& 0 <= i < old(self).spec_waiting().len()
                &&& #[trigger] old(self).spec_waiting()[i] == s
                &&& old(self).grantable(spec_bucket_of(s, old(self).spec_max_concurrency()), now)
                &&& forall|j: int| 0 <= j < i ==> !old(self).grantable(
                    spec_bucket_of(#[trigger] old(self).spec_waiting()[j], old(self).spec_max_concurrency()),
                    now,
                )
                &&& final(self).spec_waiting() == old(self).spec_waiting().remove(i)
                &&& final(self).history() == old(self).history().push(
                    Grant { bucket: spec_bucket_of(s, old(self).spec_max_concurrency()), at: now },
                )
            },
    {
        let mut i: usize = 0;
        while i < self.waiting.len()
            invariant
                *self == *old(self),
                self.well_formed(),
                0 <= i <= self.waiting@.len(),
                forall|j: int| 0 <= j < i ==> !self.grantable(
                    spec_bucket_of(#[trigger] self.waiting@[j], self.max_concurrency),
                    now,
                ),
            decreases self.waiting@.len() - i,
        {
            let shard = self.waiting[i];
            let bucket = self.bucket_of(shard);
            if self.is_grantable(bucket, now) {
                let ghost w0 = self.waiting@;
                let ghost old_self = *self;
                let granted = self.try_acquire(bucket, now);
                assert(granted);
                let removed = self.waiting.remove(i);
                assert(w0[i as int] == shard);
                assert(old(self).spec_waiting()[i as int] == removed);
                assert(self.spec_waiting() == old(self).spec_waiting().remove(i as int));
                return Some(removed);
            }
            i = i + 1;
        }
        None
    }
}

/// What a shard does after asking a shared lease store for its bucket.
#[derive(Debug, Clone, Copy, PartialEq, Eq, Structural)]
pub enum LeaseStep {
    /// The lease is held: send Identify.
    Proceed,
    /// Another shard holds the bucket: wait for the next turn.
    WaitForTurn,
    /// The store could not be reached: ask again as attempt `attempt` after
    /// `delay_ms`, never identifying without a lease.
    RetryAfter { attempt: u32, delay_ms: u64 },
}

/// Decides what follows a reply of the shared lease store: `Some(granted)`
/// when it answered, `None` when it was unavailable. Only a granted lease
/// lets the handshake go ahead.
pub fn after_lease_reply(reply: Option<bool>, attempt: u32, jitter_ms: u64) -> (r: LeaseStep)
    ensures
        r == LeaseStep::Proceed <==> reply == Some(true),
        reply == Some(false) ==> r == LeaseStep::WaitForTurn,
        reply is None ==> r == (LeaseStep::RetryAfter {
            attempt: if attempt < u32::MAX { (attempt + 1) as u32 } else { attempt },
            delay_ms: (backoff_base_ms(attempt) + jitter_ms % RECONNECT_JITTER_MS) as u64,
        }),
{
    match reply {
        Some(true) => LeaseStep::Proceed,
        Some(false) => LeaseStep::WaitForTurn,
        None => {
            let next = if attempt < u32::MAX {
                attempt + 1
            } else {
                attempt
            };
            LeaseStep::RetryAfter { attempt: next, delay_ms: reconnect_delay_ms(attempt, jitter_ms) }
        },
    }
}

/// Each grant of the history lies at least one spacing interval after every
/// earlier grant of the same bucket, whatever the order and timing of the
/// callers: no two leases of a bucket overlap.
pub proof fn lemma_no_overlapping_leases(c: IdentifyCoordinator, i: int, j: int)
    requires
        c.well_formed(),
        0 <= i < j < c.history().len(),
        c.history()[i].bucket == c.history()[j].bucket,
    ensures
        c.history()[j].at >= c.history()[i].at + c.spec_spacing_ms(),
{
    assert(spaced(c.history(), c.spec_spacing_ms()));
}

} // verus!
