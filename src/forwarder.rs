use vstd::prelude::*;

verus! {

/// A dispatch waiting to be published downstream.
#[derive(Debug, Clone, PartialEq, Eq)]
pub struct ForwardItem {
    pub event_type: String,
    pub guild_id: Option<u64>,
    pub channel_id: Option<u64>,
    pub sequence: u64,
    pub payload: Vec<u8>,
}

/// Whether a matching rule lets an event through.
#[derive(Debug, Clone, Copy, PartialEq, Eq, Structural)]
pub enum RuleEffect {
    Allow,
    Deny,
}

/// A filter rule: an event type, optionally narrowed to one guild or channel.
#[derive(Debug, Clone, PartialEq, Eq)]
pub struct ForwardRule {
    pub effect: RuleEffect,
    pub event_type: String,
    pub guild_id: Option<u64>,
    pub channel_id: Option<u64>,
}

/// True when `rule` applies to an event of this type, guild and channel.
pub open spec fn rule_matches(
    rule: ForwardRule,
    event_type: Seq<char>,
    guild_id: Option<u64>,
    channel_id: Option<u64>,
) -> bool {
    &&& rule.event_type@ == event_type
    &&& (rule.guild_id is None || rule.guild_id == guild_id)
    &&& (rule.channel_id is None || rule.channel_id == channel_id)
}

/// The first rule that applies decides; with none, `default_allow` does.
pub open spec fn decision(
    rules: Seq<ForwardRule>,
    default_allow: bool,
    event_type: Seq<char>,
    guild_id: Option<u64>,
    channel_id: Option<u64>,
) -> bool
    decreases rules.len(),
{
    if rules.len() == 0 {
        default_allow
    } else if rule_matches(rules[0], event_type, guild_id, channel_id) {
        rules[0].effect == RuleEffect::Allow
    } else {
        decision(rules.drop_first(), default_allow, event_type, guild_id, channel_id)
    }
}

fn option_eq(a: Option<u64>, b: Option<u64>) -> (r: bool)
    ensures
        r == (a == b),
{
    match (a, b) {
        (Some(x), Some(y)) => x == y,
        (None, None) => true,
        _ => false,
    }
}

fn rule_applies(rule: &ForwardRule, item: &ForwardItem) -> (r: bool)
    ensures
        r == rule_matches(*rule, item.event_type@, item.guild_id, item.channel_id),
{
    rule.event_type == item.event_type && (rule.guild_id.is_none() || option_eq(
        rule.guild_id,
        item.guild_id,
    )) && (rule.channel_id.is_none() || option_eq(rule.channel_id, item.channel_id))
}

/// Decides whether `item` is forwarded: the first rule that applies to its
/// event type, guild and channel decides; with none, `default_allow` does.
pub fn should_forward(rules: &Vec<ForwardRule>, default_allow: bool, item: &ForwardItem) -> (r:
    bool)
    ensures
        r == decision(rules@, default_allow, item.event_type@, item.guild_id, item.channel_id),
{
    let mut i: usize = 0;
    assert(rules@.subrange(0, rules@.len() as int) =~= rules@);
    while i < rules.len()
        invariant
            0 <= i <= rules@.len(),
            decision(rules@, default_allow, item.event_type@, item.guild_id, item.channel_id)
                == decision(
                rules@.subrange(i as int, rules@.len() as int),
                default_allow,
                item.event_type@,
                item.guild_id,
                item.channel_id,
            ),
        decreases rules@.len() - i,
    {
        let ghost rest = rules@.subrange(i as int, rules@.len() as int);
        assert(rest.drop_first() =~= rules@.subrange(i + 1, rules@.len() as int));
        if rule_applies(&rules[i], item) {
            return rules[i].effect == RuleEffect::Allow;
        }
        i = i + 1;
    }
    assert(rules@.subrange(i as int, rules@.len() as int).len() == 0);
    default_allow
}

/// The queue after one item arrives: when it already holds `capacity` items
/// the oldest is shed.
pub open spec fn after_enqueue<T>(q: Seq<T>, x: T, capacity: nat) -> Seq<T> {
    if q.len() >= capacity {
        q.drop_first().push(x)
    } else {
        q.push(x)
    }
}

/// The queue after items arrive one by one, starting from `q`.
pub open spec fn after_all<T>(q: Seq<T>, xs: Seq<T>, capacity: nat) -> Seq<T>
    decreases xs.len(),
{
    if xs.len() == 0 {
        q
    } else {
        after_enqueue(after_all(q, xs.drop_last(), capacity), xs.last(), capacity)
    }
}

/// A queue that starts empty holds, after any run of arrivals, exactly the
/// newest `capacity` of them in arrival order: it fills, then sheds the oldest,
/// and never grows past its bound.
pub proof fn lemma_queue_keeps_newest<T>(xs: Seq<T>, capacity: nat)
    requires
        capacity > 0,
    ensures
        after_all(Seq::<T>::empty(), xs, capacity) == xs.subrange(
            if xs.len() > capacity { xs.len() - capacity } else { 0 },
            xs.len() as int,
        ),
        after_all(Seq::<T>::empty(), xs, capacity).len() <= capacity,
    decreases xs.len(),
{
    if xs.len() > 0 {
        lemma_queue_keeps_newest(xs.drop_last(), capacity);
        let prev = after_all(Seq::<T>::empty(), xs.drop_last(), capacity);
        let n = xs.len() as int;
        if n - 1 >= capacity {
            assert(prev.drop_first().push(xs.last()) =~= xs.subrange(n - capacity, n));
        } else {
            assert(prev.push(xs.last()) =~= xs.subrange(0, n));
        }
    }
}

/// The bounded queue of dispatches of one shard. Arrivals never wait: when the
/// queue is full the oldest pending item is shed and counted.
pub struct ForwardQueue {
    capacity: usize,
    items: Vec<ForwardItem>,
    dropped: u64,
}

impl View for ForwardQueue {
    type V = Seq<ForwardItem>;

    closed spec fn view(&self) -> Seq<ForwardItem> {
        self.items@
    }
}

impl ForwardQueue {
    pub closed spec fn spec_capacity(&self) -> nat {
        self.capacity as nat
    }

    pub closed spec fn spec_dropped(&self) -> u64 {
        self.dropped
    }

    pub open spec fn well_formed(&self) -> bool {
        0 < self.spec_capacity() && self@.len() <= self.spec_capacity()
    }

    /// An empty queue that holds at most `capacity` items.
    pub fn new(capacity: usize) -> (r: ForwardQueue)
        requires
            capacity > 0,
        ensures
            r.well_formed(),
            r@ == Seq::<ForwardItem>::empty(),
            r.spec_capacity() == capacity,
            r.spec_dropped() == 0,
    {
        ForwardQueue { capacity, items: Vec::new(), dropped: 0 }
    }

    pub fn len(&self) -> (r: usize)
        ensures
            r == self@.len(),
    {
        self.items.len()
    }

    /// Items shed so far because the queue was full (saturating).
    pub fn dropped(&self) -> (r: u64)
        ensures
            r == self.spec_dropped(),
    {
        self.dropped
    }

    /// Adds an item at the back; when the queue is full the oldest item is shed,
    /// counted, and returned.
    pub fn enqueue(&mut self, item: ForwardItem) -> (r: Option<ForwardItem>)
        requires
            old(self).well_formed(),
        ensures
            final(self).well_formed(),
            final(self).spec_capacity() == old(self).spec_capacity(),
            final(self)@ == after_enqueue(old(self)@, item, old(self).spec_capacity()),
            old(self)@.len() == old(self).spec_capacity() ==> {
                &&& r == Some(old(self)@[0])
                &&& final(self).spec_dropped() == if old(self).spec_dropped() < u64::MAX {
                    (old(self).spec_dropped() + 1) as u64
                } else {
                    old(self).spec_dropped()
                }
            },
            old(self)@.len() < old(self).spec_capacity() ==> r is None && final(self).spec_dropped()
                == old(self).spec_dropped(),
    {
        let mut shed = None;
        if self.items.len() >= self.capacity {
            shed = Some(self.items.remove(0));
            if self.dropped < u64::MAX {
                self.dropped = self.dropped + 1;
            }
        }
        self.items.push(item);
        assert(self.items@ =~= after_enqueue(old(self)@, item, old(self).spec_capacity()));
        shed
    }

    /// Takes the oldest pending item.
    pub fn pop_front(&mut self) -> (r: Option<ForwardItem>)
        requires
            old(self).well_formed(),
        ensures
            final(self).well_formed(),
            final(self).spec_capacity() == old(self).spec_capacity(),
            final(self).spec_dropped() == old(self).spec_dropped(),
            old(self)@.len() == 0 ==> r is None && final(self)@ == old(self)@,
            old(self)@.len() > 0 ==> r == Some(old(self)@[0]) && final(self)@ == old(self)@.drop_first(),
    {
        if self.items.len() == 0 {
            None
        } else {
            let x = self.items.remove(0);
            assert(self.items@ =~= old(self)@.drop_first());
            Some(x)
        }
    }
}

/// What to do after a publish attempt.
#[derive(Debug, Clone, Copy, PartialEq, Eq, Structural)]
pub enum PublishStep {
    /// The item was delivered.
    Delivered,
    /// Publish again as attempt `attempt` after `delay_ms`.
    Retry { attempt: u32, delay_ms: u64 },
    /// Retries are exhausted: the item is dropped and forwarding reported failed.
    Failed,
}

/// Delay before the first retry of a publish.
pub const PUBLISH_RETRY_BASE_MS: u64 = 100;

/// Longest delay between two publish attempts.
pub const PUBLISH_RETRY_CAP_MS: u64 = 2000;

/// Delay before retry `attempt` (counted from 1): doubling from the base, capped.
pub open spec fn publish_delay(attempt: u32) -> u64
    decreases attempt,
{
    if attempt <= 1 {
        PUBLISH_RETRY_BASE_MS
    } else {
        let d = 2 * publish_delay((attempt - 1) as u32);
        if d > PUBLISH_RETRY_CAP_MS {
            PUBLISH_RETRY_CAP_MS
        } else {
            d as u64
        }
    }
}

proof fn lemma_publish_delay_bounded(attempt: u32)
    ensures
        publish_delay(attempt) <= PUBLISH_RETRY_CAP_MS,
    decreases attempt,
{
    if attempt > 1 {
        lemma_publish_delay_bounded((attempt - 1) as u32);
    }
}

/// Decides what follows publish attempt `attempt` (counted from 0) given
/// whether it succeeded: a failure is retried with a doubling, capped delay
/// until `max_attempts` attempts have been made, then forwarding fails.
pub fn after_publish(attempt: u32, succeeded: bool, max_attempts: u32) -> (r: PublishStep)
    ensures
        succeeded ==> r == PublishStep::Delivered,
        !succeeded && attempt + 1 < max_attempts ==> r == (PublishStep::Retry {
            attempt: (attempt + 1) as u32,
            delay_ms: publish_delay((attempt + 1) as u32),
        }),
        !succeeded && attempt + 1 >= max_attempts ==> r == PublishStep::Failed,
{
    if succeeded {
        return PublishStep::Delivered;
    }
    if attempt >= max_attempts || max_attempts - attempt <= 1 {
        return PublishStep::Failed;
    }
    let next: u32 = attempt + 1;
    let mut delay: u64 = PUBLISH_RETRY_BASE_MS;
    let mut k: u32 = 1;
    while k < next
        invariant
            1 <= k <= next,
            delay == publish_delay(k),
        decreases next - k,
    {
        proof {
            lemma_publish_delay_bounded(k);
        }
        k = k + 1;
        delay = if 2 * delay > PUBLISH_RETRY_CAP_MS {
            PUBLISH_RETRY_CAP_MS
        } else {
            2 * delay
        };
    }
    PublishStep::Retry { attempt: next, delay_ms: delay }
}

} // verus!
