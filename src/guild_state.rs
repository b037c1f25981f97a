use vstd::prelude::*;
use std::collections::HashMap;
use crate::shard_info::spec_shard_of;
use crate::shard_info::shard_of;

verus! {

/// The cached part of one guild.
#[derive(Debug, Clone)]
pub struct GuildEntry {
    pub name: String,
    pub member_count: u64,
    /// Channel snowflake to channel name.
    pub channels: HashMap<u64, String>,
    /// Role snowflake to role name.
    pub roles: HashMap<u64, String>,
}

/// Mathematical model of a cached guild.
pub struct GuildModel {
    pub name: Seq<char>,
    pub member_count: u64,
    pub channels: Map<u64, String>,
    pub roles: Map<u64, String>,
}

impl View for GuildEntry {
    type V = GuildModel;

    open spec fn view(&self) -> GuildModel {
        GuildModel {
            name: self.name@,
            member_count: self.member_count,
            channels: self.channels@,
            roles: self.roles@,
        }
    }
}

/// A dispatch that changes the cache.
#[derive(Debug, Clone)]
pub enum GuildEvent {
    /// A guild became available, or its full state was sent again.
    GuildCreate { guild_id: u64, guild: GuildEntry },
    /// A guild's settings changed; the entry is replaced.
    GuildUpdate { guild_id: u64, guild: GuildEntry },
    /// The guild was left, deleted, or became unavailable.
    GuildDelete { guild_id: u64, unavailable: bool },
    /// A channel was created or changed.
    ChannelUpsert { guild_id: u64, channel_id: u64, name: String },
    /// A channel was deleted.
    ChannelDelete { guild_id: u64, channel_id: u64 },
    /// A role was created or changed.
    RoleUpsert { guild_id: u64, role_id: u64, name: String },
    /// A role was deleted.
    RoleDelete { guild_id: u64, role_id: u64 },
}

impl GuildEvent {
    /// The guild that the event concerns.
    pub open spec fn spec_guild_id(&self) -> u64 {
        match self {
            GuildEvent::GuildCreate { guild_id, .. } => *guild_id,
            GuildEvent::GuildUpdate { guild_id, .. } => *guild_id,
            GuildEvent::GuildDelete { guild_id, .. } => *guild_id,
            GuildEvent::ChannelUpsert { guild_id, .. } => *guild_id,
            GuildEvent::ChannelDelete { guild_id, .. } => *guild_id,
            GuildEvent::RoleUpsert { guild_id, .. } => *guild_id,
            GuildEvent::RoleDelete { guild_id, .. } => *guild_id,
        }
    }

    pub fn guild_id(&self) -> (r: u64)
        ensures
            r == self.spec_guild_id(),
    {
        match self {
            GuildEvent::GuildCreate { guild_id, .. } => *guild_id,
            GuildEvent::GuildUpdate { guild_id, .. } => *guild_id,
            GuildEvent::GuildDelete { guild_id, .. } => *guild_id,
            GuildEvent::ChannelUpsert { guild_id, .. } => *guild_id,
            GuildEvent::ChannelDelete { guild_id, .. } => *guild_id,
            GuildEvent::RoleUpsert { guild_id, .. } => *guild_id,
            GuildEvent::RoleDelete { guild_id, .. } => *guild_id,
        }
    }
}

/// The cache after one event, on the model: last writer wins for each entity.
/// Changes to channels or roles of a guild that is not cached are ignored.
pub open spec fn applied(m: Map<u64, GuildModel>, e: GuildEvent) -> Map<u64, GuildModel> {
    match e {
        GuildEvent::GuildCreate { guild_id, guild } => m.insert(guild_id, guild@),
        GuildEvent::GuildUpdate { guild_id, guild } => m.insert(guild_id, guild@),
        GuildEvent::GuildDelete { guild_id, .. } => m.remove(guild_id),
        GuildEvent::ChannelUpsert { guild_id, channel_id, name } => if m.contains_key(guild_id) {
            m.insert(
                guild_id,
                GuildModel { channels: m[guild_id].channels.insert(channel_id, name), ..m[guild_id] },
            )
        } else {
            m
        },
        GuildEvent::ChannelDelete { guild_id, channel_id } => if m.contains_key(guild_id) {
            m.insert(
                guild_id,
                GuildModel { channels: m[guild_id].channels.remove(channel_id), ..m[guild_id] },
            )
        } else {
            m
        },
        GuildEvent::RoleUpsert { guild_id, role_id, name } => if m.contains_key(guild_id) {
            m.insert(guild_id, GuildModel { roles: m[guild_id].roles.insert(role_id, name), ..m[guild_id] })
        } else {
            m
        },
        GuildEvent::RoleDelete { guild_id, role_id } => if m.contains_key(guild_id) {
            m.insert(guild_id, GuildModel { roles: m[guild_id].roles.remove(role_id), ..m[guild_id] })
        } else {
            m
        },
    }
}

/// Applying the same event twice leaves the cache as applying it once does.
pub proof fn lemma_apply_idempotent(m: Map<u64, GuildModel>, e: GuildEvent)
    ensures
        applied(applied(m, e), e) == applied(m, e),
{
    match e {
        GuildEvent::GuildCreate { guild_id, guild } => {
            assert(applied(applied(m, e), e) =~= applied(m, e));
        },
        GuildEvent::GuildUpdate { guild_id, guild } => {
            assert(applied(applied(m, e), e) =~= applied(m, e));
        },
        GuildEvent::GuildDelete { guild_id, .. } => {
            assert(applied(applied(m, e), e) =~= applied(m, e));
        },
        GuildEvent::ChannelUpsert { guild_id, channel_id, name } => {
            if m.contains_key(guild_id) {
                assert(applied(m, e)[guild_id].channels.insert(channel_id, name)
                    =~= applied(m, e)[guild_id].channels);
            }
            assert(applied(applied(m, e), e) =~= applied(m, e));
        },
        GuildEvent::ChannelDelete { guild_id, channel_id } => {
            if m.contains_key(guild_id) {
                assert(applied(m, e)[guild_id].channels.remove(channel_id)
                    =~= applied(m, e)[guild_id].channels);
            }
            assert(applied(applied(m, e), e) =~= applied(m, e));
        },
        GuildEvent::RoleUpsert { guild_id, role_id, name } => {
            if m.contains_key(guild_id) {
                assert(applied(m, e)[guild_id].roles.insert(role_id, name)
                    =~= applied(m, e)[guild_id].roles);
            }
            assert(applied(applied(m, e), e) =~= applied(m, e));
        },
        GuildEvent::RoleDelete { guild_id, role_id } => {
            if m.contains_key(guild_id) {
                assert(applied(m, e)[guild_id].roles.remove(role_id)
                    =~= applied(m, e)[guild_id].roles);
            }
            assert(applied(applied(m, e), e) =~= applied(m, e));
        },
    }
}

/// The guild cache of one shard.
pub struct GuildState {
    shard_id: u64,
    total_shards: u64,
    guilds: HashMap<u64, GuildEntry>,
}

impl View for GuildState {
    type V = Map<u64, GuildModel>;

    closed spec fn view(&self) -> Map<u64, GuildModel> {
        Map::new(|k: u64| self.guilds@.contains_key(k), |k: u64| self.guilds@[k]@)
    }
}

impl GuildState {
    pub closed spec fn spec_shard_id(&self) -> u64 {
        self.shard_id
    }

    pub closed spec fn spec_total_shards(&self) -> u64 {
        self.total_shards
    }

    /// True when this cache's shard owns guild `guild_id`.
    pub open spec fn owns(&self, guild_id: u64) -> bool {
        spec_shard_of(guild_id, self.spec_total_shards()) == self.spec_shard_id()
    }

    /// The shard layout is valid and every cached guild belongs to this shard.
    pub open spec fn well_formed(&self) -> bool {
        &&& 0 < self.spec_total_shards()
        &&& self.spec_shard_id() < self.spec_total_shards()
        &&& forall|g: u64| #[trigger] self@.contains_key(g) ==> self.owns(g)
    }

    /// An empty cache for shard `shard_id` of `total_shards`.
    pub fn new(shard_id: u64, total_shards: u64) -> (r: GuildState)
        requires
            shard_id < total_shards,
        ensures
            r.well_formed(),
            r@ == Map::<u64, GuildModel>::empty(),
            r.spec_shard_id() == shard_id,
            r.spec_total_shards() == total_shards,
    {
        let r = GuildState { shard_id, total_shards, guilds: HashMap::new() };
        assert(r@ =~= Map::<u64, GuildModel>::empty());
        r
    }

    /// True when this cache's shard owns guild `guild_id`.
    pub fn is_owner(&self, guild_id: u64) -> (r: bool)
        requires
            self.well_formed(),
        ensures
            r == self.owns(guild_id),
    {
        shard_of(guild_id, self.total_shards) == self.shard_id
    }

    /// Number of cached guilds.
    pub fn len(&self) -> (r: usize)
        requires
            self.well_formed(),
        ensures
            r == self@.len(),
    {
        assert(self@.dom() =~= self.guilds@.dom());
        self.guilds.len()
    }

    /// The cached guild, if any.
    pub fn get(&self, guild_id: u64) -> (r: Option<&GuildEntry>)
        ensures
            r is Some == self@.contains_key(guild_id),
            r matches Some(g) ==> g@ == self@[guild_id],
    {
        self.guilds.get(&guild_id)
    }

    /// Drops a guild from the cache.
    pub fn evict(&mut self, guild_id: u64)
        requires
            old(self).well_formed(),
        ensures
            final(self).well_formed(),
            final(self)@ == old(self)@.remove(guild_id),
            final(self).spec_shard_id() == old(self).spec_shard_id(),
            final(self).spec_total_shards() == old(self).spec_total_shards(),
    {
        self.guilds.remove(&guild_id);
        assert(self@ =~= old(self)@.remove(guild_id));
    }

    /// Drops every guild: after a disconnect the cache is not authoritative
    /// until the session is confirmed again.
    pub fn evict_all(&mut self)
        requires
            old(self).well_formed(),
        ensures
            final(self).well_formed(),
            final(self)@ == Map::<u64, GuildModel>::empty(),
            final(self).spec_shard_id() == old(self).spec_shard_id(),
            final(self).spec_total_shards() == old(self).spec_total_shards(),
    {
        self.guilds.clear();
        assert(self@ =~= Map::<u64, GuildModel>::empty());
    }

    /// Applies a dispatch to the cache when this shard owns its guild, and
    /// reports whether it did; a guild owned by another shard is left alone.
    pub fn apply(&mut self, event: GuildEvent) -> (r: bool)
        requires
            old(self).well_formed(),
        ensures
            final(self).well_formed(),
            r == old(self).owns(event.spec_guild_id()),
            r ==> final(self)@ == applied(old(self)@, event),
            !r ==> final(self)@ == old(self)@,
            final(self).spec_shard_id() == old(self).spec_shard_id(),
            final(self).spec_total_shards() == old(self).spec_total_shards(),
    {
        let ghost m0 = self@;
        let gid = event.guild_id();
        if !self.is_owner(gid) {
            return false;
        }
        match event {
            GuildEvent::GuildCreate { guild_id, guild } => {
                let ghost v = guild@;
                self.guilds.insert(guild_id, guild);
                assert(self@ =~= m0.insert(guild_id, v));
            },
            GuildEvent::GuildUpdate { guild_id, guild } => {
                let ghost v = guild@;
                self.guilds.insert(guild_id, guild);
                assert(self@ =~= m0.insert(guild_id, v));
            },
            GuildEvent::GuildDelete { guild_id, .. } => {
                self.guilds.remove(&guild_id);
                assert(self@ =~= m0.remove(guild_id));
            },
            GuildEvent::ChannelUpsert { guild_id, channel_id, name } => {
                if let Some(mut g) = self.guilds.remove(&guild_id) {
                    g.channels.insert(channel_id, name);
                    self.guilds.insert(guild_id, g);
                }
                assert(self@ =~= applied(m0, event));
            },
            GuildEvent::ChannelDelete { guild_id, channel_id } => {
                if let Some(mut g) = self.guilds.remove(&guild_id) {
                    g.channels.remove(&channel_id);
                    self.guilds.insert(guild_id, g);
                }
                assert(self@ =~= applied(m0, event));
            },
            GuildEvent::RoleUpsert { guild_id, role_id, name } => {
                if let Some(mut g) = self.guilds.remove(&guild_id) {
                    g.roles.insert(role_id, name);
                    self.guilds.insert(guild_id, g);
                }
                assert(self@ =~= applied(m0, event));
            },
            GuildEvent::RoleDelete { guild_id, role_id } => {
                if let Some(mut g) = self.guilds.remove(&guild_id) {
                    g.roles.remove(&role_id);
                    self.guilds.insert(guild_id, g);
                }
                assert(self@ =~= applied(m0, event));
            },
        }
        true
    }
}

} // verus!
