use vstd::prelude::*;
use crate::forwarder::{decision, after_enqueue, should_forward, ForwardItem, ForwardQueue, ForwardRule};
use crate::guild_state::{applied, GuildEvent, GuildState, GuildModel};
use crate::shard::{step, Shard, ShardAction, ShardEvent, ShardModel, ShardState};
use crate::shard_info::ShardInfo;

verus! {

/// What became of a dispatch.
#[derive(Debug, Clone, PartialEq, Eq)]
pub enum DispatchOutcome {
    /// The shard was not connected; the frame was dropped.
    NotConnected,
    /// The rules held the dispatch back.
    Filtered,
    /// The dispatch was queued; `shed` is the oldest pending item when the
    /// queue had to make room.
    Queued { shed: Option<ForwardItem> },
}

/// One shard with its guild cache and its forward queue.
pub struct ShardWorker {
    shard: Shard,
    cache: GuildState,
    queue: ForwardQueue,
    rules: Vec<ForwardRule>,
    default_allow: bool,
}

impl ShardWorker {
    pub closed spec fn spec_shard(&self) -> ShardModel {
        self.shard@
    }

    pub closed spec fn spec_cache(&self) -> Map<u64, GuildModel> {
        self.cache@
    }

    pub closed spec fn spec_queue(&self) -> Seq<ForwardItem> {
        self.queue@
    }

    pub closed spec fn spec_capacity(&self) -> nat {
        self.queue.spec_capacity()
    }

    pub closed spec fn spec_dropped(&self) -> u64 {
        self.queue.spec_dropped()
    }

    pub closed spec fn spec_rules(&self) -> Seq<ForwardRule> {
        self.rules@
    }

    pub closed spec fn spec_default_allow(&self) -> bool {
        self.default_allow
    }

    /// True when this worker's shard owns guild `guild_id`.
    pub closed spec fn owns(&self, guild_id: u64) -> bool {
        self.cache.owns(guild_id)
    }

    pub closed spec fn well_formed(&self) -> bool {
        self.cache.well_formed() && self.queue.well_formed()
    }

    /// A disconnected worker for the shard `info`, with an empty cache and an
    /// empty queue of at most `capacity` items.
    pub fn new(
        info: ShardInfo,
        alert_threshold: u32,
        capacity: usize,
        rules: Vec<ForwardRule>,
        default_allow: bool,
    ) -> (r: ShardWorker)
        requires
            info.well_formed(),
            capacity > 0,
        ensures
            r.well_formed(),
            r.spec_shard() == crate::shard::initial(alert_threshold),
            r.spec_cache() == Map::<u64, GuildModel>::empty(),
            r.spec_queue() == Seq::<ForwardItem>::empty(),
            r.spec_capacity() == capacity,
            r.spec_rules() == rules@,
            r.spec_default_allow() == default_allow,
            forall|g: u64| r.owns(g) == info.owns_spec(g),
    {
        ShardWorker {
            shard: Shard::new(alert_threshold),
            cache: GuildState::new(info.shard_id(), info.total_shards()),
            queue: ForwardQueue::new(capacity),
            rules,
            default_allow,
        }
    }

    /// Feeds a connection event to the shard. When the shard drops to
    /// disconnected its cache is no longer authoritative and is emptied.
    pub fn handle(&mut self, event: ShardEvent) -> (r: ShardAction)
        requires
            old(self).well_formed(),
        ensures
            final(self).well_formed(),
            (final(self).spec_shard(), r@) == step(old(self).spec_shard(), event@),
            final(self).spec_shard().state == ShardState::Disconnected && old(self).spec_shard().state
                != ShardState::Disconnected ==> final(self).spec_cache() == Map::<u64, GuildModel>::empty(),
            !(final(self).spec_shard().state == ShardState::Disconnected && old(self).spec_shard().state
                != ShardState::Disconnected) ==> final(self).spec_cache() == old(self).spec_cache(),
            final(self).spec_queue() == old(self).spec_queue(),
            final(self).spec_capacity() == old(self).spec_capacity(),
            final(self).spec_rules() == old(self).spec_rules(),
            final(self).spec_default_allow() == old(self).spec_default_allow(),
            forall|g: u64| final(self).owns(g) == old(self).owns(g),
    {
        let before = self.shard.state();
        let action = self.shard.step(event);
        if self.shard.state() == ShardState::Disconnected && before != ShardState::Disconnected {
            self.cache.evict_all();
        }
        action
    }

    /// Handles a dispatch: while connected the shard records its sequence, the
    /// cache applies `update` when this shard owns its guild, and the item is
    /// queued for forwarding when the rules allow it. Queuing never waits.
    pub fn dispatch(&mut self, sequence: u64, update: Option<GuildEvent>, item: ForwardItem) -> (r:
        DispatchOutcome)
        requires
            old(self).well_formed(),
        ensures
            final(self).well_formed(),
            final(self).spec_capacity() == old(self).spec_capacity(),
            final(self).spec_rules() == old(self).spec_rules(),
            final(self).spec_default_allow() == old(self).spec_default_allow(),
            forall|g: u64| final(self).owns(g) == old(self).owns(g),
            old(self).spec_shard().state != ShardState::Connected ==> {
                &&& r == DispatchOutcome::NotConnected
                &&& final(self).spec_shard() == old(self).spec_shard()
                &&& final(self).spec_cache() == old(self).spec_cache()
                &&& final(self).spec_queue() == old(self).spec_queue()
                &&& final(self).spec_dropped() == old(self).spec_dropped()
            },
            old(self).spec_shard().state == ShardState::Connected ==> {
                &&& final(self).spec_shard() == step(
                    old(self).spec_shard(),
                    crate::shard::EventModel::Dispatch { sequence },
                ).0
                &&& final(self).spec_cache() == match update {
                    Some(e) => if old(self).owns(e.spec_guild_id()) {
                        applied(old(self).spec_cache(), e)
                    } else {
                        old(self).spec_cache()
                    },
                    None => old(self).spec_cache(),
                }
                &&& decision(
                    old(self).spec_rules(),
                    old(self).spec_default_allow(),
                    item.event_type@,
                    item.guild_id,
                    item.channel_id,
                ) ==> {
                    &&& r is Queued
                    &&& final(self).spec_queue() == after_enqueue(
                        old(self).spec_queue(),
                        item,
                        old(self).spec_capacity(),
                    )
                    &&& old(self).spec_queue().len() == old(self).spec_capacity() ==> {
                        &&& r == (DispatchOutcome::Queued { shed: Some(old(self).spec_queue()[0]) })
                        &&& final(self).spec_dropped() == if old(self).spec_dropped() < u64::MAX {
                            (old(self).spec_dropped() + 1) as u64
                        } else {
                            old(self).spec_dropped()
                        }
                    }
                    &&& old(self).spec_queue().len() < old(self).spec_capacity() ==> {
                        &&& r == (DispatchOutcome::Queued { shed: None })
                        &&& final(self).spec_dropped() == old(self).spec_dropped()
                    }
                }
                &&& !decision(
                    old(self).spec_rules(),
                    old(self).spec_default_allow(),
                    item.event_type@,
                    item.guild_id,
                    item.channel_id,
                ) ==> {
                    &&& r == DispatchOutcome::Filtered
                    &&& final(self).spec_queue() == old(self).spec_queue()
                    &&& final(self).spec_dropped() == old(self).spec_dropped()
                }
            },
    {
        if self.shard.state() != ShardState::Connected {
            return DispatchOutcome::NotConnected;
        }
        let _ = self.shard.step(ShardEvent::Dispatch { sequence });
        match update {
            Some(e) => {
                let _ = self.cache.apply(e);
            },
            None => {},
        }
        if should_forward(&self.rules, self.default_allow, &item) {
            let shed = self.queue.enqueue(item);
            DispatchOutcome::Queued { shed }
        } else {
            DispatchOutcome::Filtered
        }
    }

    /// Takes the oldest item waiting to be published.
    pub fn next_to_publish(&mut self) -> (r: Option<ForwardItem>)
        requires
            old(self).well_formed(),
        ensures
            final(self).well_formed(),
            old(self).spec_queue().len() == 0 ==> r is None && final(self).spec_queue() == old(self).spec_queue(),
            old(self).spec_queue().len() > 0 ==> r == Some(old(self).spec_queue()[0])
                && final(self).spec_queue() == old(self).spec_queue().drop_first(),
            final(self).spec_shard() == old(self).spec_shard(),
            final(self).spec_cache() == old(self).spec_cache(),
            final(self).spec_capacity() == old(self).spec_capacity(),
            final(self).spec_rules() == old(self).spec_rules(),
            final(self).spec_default_allow() == old(self).spec_default_allow(),
            forall|g: u64| final(self).owns(g) == old(self).owns(g),
    {
        self.queue.pop_front()
    }

    pub fn shard(&self) -> (r: &Shard)
        ensures
            r@ == self.spec_shard(),
    {
        &self.shard
    }

    pub fn cache(&self) -> (r: &GuildState)
        ensures
            r@ == self.spec_cache(),
    {
        &self.cache
    }

    /// Items shed so far because the queue was full.
    pub fn dropped(&self) -> (r: u64)
        ensures
            r == self.spec_dropped(),
    {
        self.queue.dropped()
    }
}

} // verus!
